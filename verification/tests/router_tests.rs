use rusty_search::outcome::{CmdError, Outcome};
use rusty_search::router::run_command;
use rusty_search::store::Store;

fn s(t: &str) -> String {
    t.to_string()
}

fn db(name: &str) -> String {
    format!("/tmp/rusty_search_route_{name}.db")
}

fn argv(words: &[&str]) -> Vec<String> {
    let mut v = vec![s("rusty-search")];
    for w in words {
        v.push(s(w));
    }
    v
}

#[test]
fn router_runs_manage_create() {
    let mut store = Store::open(&db("create")).expect("open store");
    let reply = run_command(&mut store, &argv(&["manage", "create", "routeidx"]))
        .expect("create through the router");
    assert!(matches!(reply.outcome, Outcome::Created { .. }));
    assert!(reply.text.contains("result:"));
    assert!(reply.text.contains("`routeidx` Index"));
}

#[test]
fn router_runs_edit_actions_case_insensitively() {
    let mut store = Store::open(&db("edit")).expect("open store");
    run_command(&mut store, &argv(&["MANAGE", "Create", "caseidx"])).expect("create");
    let reply = run_command(&mut store, &argv(&["Edit", "ADD", "caseidx", "k", "v"]))
        .expect("add through the router");
    assert_eq!(reply.outcome, Outcome::EntryAdded { index: s("caseidx"), key: s("k") });
    assert!(reply.text.contains("Success: Entry added for caseidx->k"));
}

#[test]
fn router_unknown_command_falls_back_to_help() {
    let mut store = Store::open(&db("unknown")).expect("open store");
    let reply = run_command(&mut store, &argv(&["frobnicate"])).expect("fall back to help");
    match reply.outcome {
        Outcome::Help { text } => assert!(text.contains("Welcome to Rusty Search")),
        other => panic!("expected help, got {:?}", other),
    }
}

#[test]
fn router_empty_invocation_shows_help() {
    let mut store = Store::open(&db("empty")).expect("open store");
    let reply = run_command(&mut store, &argv(&[])).expect("help for no words");
    assert!(matches!(reply.outcome, Outcome::Help { .. }));
}

#[test]
fn router_rejects_unimplemented_commands() {
    let mut store = Store::open(&db("unimpl")).expect("open store");
    for word in ["update", "search", "rank", "config"] {
        let r = run_command(&mut store, &argv(&[word]));
        match r {
            Err(CmdError::NotImplemented { command }) => assert_eq!(command, s(word)),
            other => panic!("expected not-implemented for {word}, got {:?}", other),
        }
    }
}

#[test]
fn router_manage_purge_only_requests() {
    let mut store = Store::open(&db("purge")).expect("open store");
    run_command(&mut store, &argv(&["manage", "create", "purgeidx"])).expect("create");
    let reply = run_command(&mut store, &argv(&["manage", "purge"])).expect("purge");
    assert_eq!(reply.outcome, Outcome::PurgeRequested);
    // the request itself does not touch the store: the index is intact
    assert_eq!(store.contains_entry("purgeidx", "k"), Ok(false));
}

#[test]
fn router_handler_help_for_unknown_action() {
    let mut store = Store::open(&db("action")).expect("open store");
    let reply = run_command(&mut store, &argv(&["edit", "explode"])).expect("edit help");
    match reply.outcome {
        Outcome::Help { text } => assert!(text.contains("Edit Command")),
        other => panic!("expected the edit help, got {:?}", other),
    }
    let reply2 = run_command(&mut store, &argv(&["manage"])).expect("manage help");
    match reply2.outcome {
        Outcome::Help { text } => assert!(text.contains("Manage Command")),
        other => panic!("expected the manage help, got {:?}", other),
    }
}

#[test]
fn router_propagates_binding_errors() {
    let mut store = Store::open(&db("binderr")).expect("open store");
    let r = run_command(&mut store, &argv(&["edit", "add", "idx"]));
    match r {
        Err(CmdError::MissingParam { param }) => assert_eq!(param, s("key")),
        other => panic!("expected a missing-parameter error, got {:?}", other),
    }
    let r2 = run_command(&mut store, &argv(&["manage", "create", "no good"]));
    assert!(matches!(r2, Err(CmdError::InvalidParam { .. })));
}

#[test]
fn error_messages_name_the_trouble() {
    let e = CmdError::MissingParam { param: s("data") };
    assert_eq!(e.message(), s("No value entered for the param: data"));
    let n = CmdError::NotImplemented { command: s("search") };
    assert_eq!(n.message(), s("Nothing implemented for search"));
}

#[test]
fn outcome_messages_describe_results() {
    let added = Outcome::EntryAdded { index: s("i"), key: s("k") };
    assert_eq!(added.message(), s("Success: Entry added for i->k"));
    let missing = Outcome::EntryMissing { key: s("k") };
    assert_eq!(missing.message(), s("Warning: Row did not exist with key 'k'"));
}
