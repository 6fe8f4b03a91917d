use rusty_search::command::{bind_params, ParamMap, ParamRule};
use rusty_search::outcome::CmdError;
use rusty_search::tool::{assert_args, str_eq, str_eq_ci};
use rusty_search::validation::{StringValidation, ValidationError};

fn s(t: &str) -> String {
    t.to_string()
}

fn edit_add_rules() -> Vec<ParamRule<'static>> {
    vec![
        ParamRule { key: "index", validation: StringValidation::SqlTable, required: true },
        ParamRule { key: "key", validation: StringValidation::SqlText, required: true },
        ParamRule { key: "data", validation: StringValidation::Ignore, required: true },
    ]
}

#[test]
fn binder_binds_positionally() {
    let mut map = ParamMap::new();
    let params = vec![s("myindex"), s("mykey"), s("{\"v\":1}")];
    let r = bind_params(&mut map, &edit_add_rules(), &params);
    assert!(r.is_ok());
    assert_eq!(map.get("index"), Some(&s("myindex")));
    assert_eq!(map.get("key"), Some(&s("mykey")));
    assert_eq!(map.get("data"), Some(&s("{\"v\":1}")));
}

#[test]
fn binder_reports_missing_required_parameter() {
    let mut map = ParamMap::new();
    let params = vec![s("myindex"), s("mykey")];
    let r = bind_params(&mut map, &edit_add_rules(), &params);
    match r {
        Err(CmdError::MissingParam { param }) => assert_eq!(param, s("data")),
        other => panic!("expected a missing-parameter error, got {:?}", other),
    }
}

#[test]
fn binder_keeps_earlier_bindings_after_a_failure() {
    let mut map = ParamMap::new();
    let params = vec![s("myindex"), s("mykey")];
    let _ = bind_params(&mut map, &edit_add_rules(), &params);
    // the two rules before the failing one stay committed
    assert_eq!(map.get("index"), Some(&s("myindex")));
    assert_eq!(map.get("key"), Some(&s("mykey")));
    assert_eq!(map.get("data"), None);
}

#[test]
fn binder_reports_invalid_value_with_its_rule() {
    let mut map = ParamMap::new();
    let params = vec![s("bad index!"), s("mykey"), s("d")];
    let r = bind_params(&mut map, &edit_add_rules(), &params);
    match r {
        Err(CmdError::InvalidParam { param, reason }) => {
            assert_eq!(param, s("index"));
            assert_eq!(reason, ValidationError::NotIdentifier);
        },
        other => panic!("expected an invalid-parameter error, got {:?}", other),
    }
    assert_eq!(map.get("index"), None);
}

#[test]
fn binder_skips_absent_optional_parameter() {
    let rules = vec![
        ParamRule { key: "index", validation: StringValidation::SqlTable, required: true },
        ParamRule { key: "create", validation: StringValidation::Bool, required: false },
    ];
    let mut map = ParamMap::new();
    let params = vec![s("myindex")];
    let r = bind_params(&mut map, &rules, &params);
    assert!(r.is_ok());
    assert_eq!(map.get("index"), Some(&s("myindex")));
    assert_eq!(map.get("create"), None);
}

#[test]
fn binder_binds_present_optional_parameter() {
    let rules = vec![
        ParamRule { key: "index", validation: StringValidation::SqlTable, required: true },
        ParamRule { key: "create", validation: StringValidation::Bool, required: false },
    ];
    let mut map = ParamMap::new();
    let params = vec![s("myindex"), s("true")];
    let r = bind_params(&mut map, &rules, &params);
    assert!(r.is_ok());
    assert_eq!(map.get("create"), Some(&s("true")));
}

#[test]
fn param_map_later_binding_wins() {
    let mut map = ParamMap::new();
    map.insert(s("k"), s("one"));
    map.insert(s("k"), s("two"));
    assert_eq!(map.get("k"), Some(&s("two")));
    assert_eq!(map.get("absent"), None);
}

#[test]
fn assert_args_pairs_keys_with_offset_arguments() {
    let keys = vec![s("index"), s("key")];
    let args = vec![s("prog"), s("cmd"), s("books"), s("alpha")];
    let map = assert_args(&keys, &args);
    assert_eq!(map.get("index"), Some(&s("books")));
    assert_eq!(map.get("key"), Some(&s("alpha")));
}

#[test]
fn string_helpers_compare_as_promised() {
    assert!(str_eq("abc", "abc"));
    assert!(!str_eq("abc", "abd"));
    assert!(str_eq_ci("MaNaGe", "manage"));
    assert!(str_eq_ci("ADD", "add"));
    assert!(!str_eq_ci("adder", "add"));
    assert!(!str_eq_ci("axd", "add"));
}
