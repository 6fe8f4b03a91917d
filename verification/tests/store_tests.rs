use rusty_search::edit::Edit;
use rusty_search::manage::Manage;
use rusty_search::outcome::{CmdError, Outcome, StoreError};
use rusty_search::store::Store;

fn s(t: &str) -> String {
    t.to_string()
}

fn db(name: &str) -> String {
    format!("/tmp/rusty_search_test_{name}.db")
}

fn row_count(path: &str, index: &str) -> i64 {
    let conn = rusqlite::Connection::open(path).expect("open for inspection");
    conn.query_row(&format!("SELECT count(*) FROM `{index}`"), [], |r| r.get(0))
        .expect("count rows")
}

fn row_data(path: &str, index: &str, key: &str) -> String {
    let conn = rusqlite::Connection::open(path).expect("open for inspection");
    conn.query_row(
        &format!("SELECT `data` FROM `{index}` WHERE `key` = ?1"),
        [key],
        |r| r.get(0),
    )
    .expect("read row data")
}

#[test]
fn create_then_create_is_idempotent() {
    let path = db("reset");
    let mut store = Store::open(&path).expect("open store");
    let mut manage = Manage::new();
    let r1 = manage.create_table(&mut store, &[s("resetidx")]).expect("first create");
    assert!(matches!(r1, Outcome::Created { .. }));
    // put a row in, then reset: the table must be empty again
    let mut edit = Edit::new();
    let added = edit
        .add(&mut store, &[s("resetidx"), s("k"), s("v")])
        .expect("add after create");
    assert_eq!(added, Outcome::EntryAdded { index: s("resetidx"), key: s("k") });
    assert_eq!(row_count(&path, "resetidx"), 1);
    let mut manage2 = Manage::new();
    let r2 = manage2.create_table(&mut store, &[s("resetidx")]).expect("second create");
    assert_eq!(r2, Outcome::Created { index: s("resetidx"), fresh: false });
    assert_eq!(row_count(&path, "resetidx"), 0);
    let mut manage3 = Manage::new();
    let r3 = manage3.create_table(&mut store, &[s("resetidx")]).expect("third create");
    assert_eq!(r3, Outcome::Created { index: s("resetidx"), fresh: false });
    assert_eq!(row_count(&path, "resetidx"), 0);
}

#[test]
fn add_twice_fails_on_second_and_key_exists_after_first() {
    let path = db("addtwice");
    let mut store = Store::open(&path).expect("open store");
    let mut manage = Manage::new();
    manage.create_table(&mut store, &[s("addidx")]).expect("create");
    let mut edit = Edit::new();
    let first = edit
        .add(&mut store, &[s("addidx"), s("alpha"), s("one")])
        .expect("first add");
    assert_eq!(first, Outcome::EntryAdded { index: s("addidx"), key: s("alpha") });
    assert_eq!(store.contains_entry("addidx", "alpha"), Ok(true));
    let mut edit2 = Edit::new();
    let second = edit2
        .add(&mut store, &[s("addidx"), s("alpha"), s("two")])
        .expect("second add");
    assert_eq!(
        second,
        Outcome::AddFailed {
            index: s("addidx"),
            key: s("alpha"),
            err: StoreError::DuplicateKey
        }
    );
    assert_eq!(row_count(&path, "addidx"), 1);
    // the first entry's data is untouched
    assert_eq!(row_data(&path, "addidx", "alpha"), s("one"));
}

#[test]
fn update_with_create_flag_inserts_missing_key() {
    let path = db("upsert");
    let mut store = Store::open(&path).expect("open store");
    let mut manage = Manage::new();
    manage.create_table(&mut store, &[s("upsertidx")]).expect("create");
    let mut edit = Edit::new();
    let r = edit
        .update(&mut store, &[s("upsertidx"), s("fresh"), s("payload"), s("true")])
        .expect("upsert");
    assert_eq!(r, Outcome::EntryAdded { index: s("upsertidx"), key: s("fresh") });
    assert_eq!(store.contains_entry("upsertidx", "fresh"), Ok(true));
    assert_eq!(row_data(&path, "upsertidx", "fresh"), s("payload"));
}

#[test]
fn update_with_create_flag_updates_existing_key() {
    let path = db("upserthit");
    let mut store = Store::open(&path).expect("open store");
    let mut manage = Manage::new();
    manage.create_table(&mut store, &[s("uhidx")]).expect("create");
    let mut edit = Edit::new();
    edit.add(&mut store, &[s("uhidx"), s("k"), s("old")]).expect("add");
    let mut edit2 = Edit::new();
    let r = edit2
        .update(&mut store, &[s("uhidx"), s("k"), s("new"), s("true")])
        .expect("update");
    assert_eq!(r, Outcome::EntryUpdated { index: s("uhidx"), key: s("k") });
    assert_eq!(row_data(&path, "uhidx", "k"), s("new"));
    assert_eq!(row_count(&path, "uhidx"), 1);
}

#[test]
fn update_without_create_reports_no_match_and_changes_nothing() {
    let path = db("nomatch");
    let mut store = Store::open(&path).expect("open store");
    let mut manage = Manage::new();
    manage.create_table(&mut store, &[s("nmidx")]).expect("create");
    let mut edit = Edit::new();
    edit.add(&mut store, &[s("nmidx"), s("present"), s("v")]).expect("add");
    let mut edit2 = Edit::new();
    let r = edit2
        .update(&mut store, &[s("nmidx"), s("absent"), s("v2")])
        .expect("update");
    assert_eq!(r, Outcome::NoMatchingEntry { index: s("nmidx"), key: s("absent") });
    assert_eq!(row_count(&path, "nmidx"), 1);
    // the create flag bound to "false" behaves the same
    let mut edit3 = Edit::new();
    let r2 = edit3
        .update(&mut store, &[s("nmidx"), s("absent"), s("v2"), s("false")])
        .expect("update with false flag");
    assert_eq!(r2, Outcome::NoMatchingEntry { index: s("nmidx"), key: s("absent") });
    assert_eq!(row_count(&path, "nmidx"), 1);
    // the quirk value: the parameter's own name validates, but does not
    // set the flag
    let mut edit4 = Edit::new();
    let r3 = edit4
        .update(&mut store, &[s("nmidx"), s("absent"), s("v2"), s("create")])
        .expect("update with echoed flag");
    assert_eq!(r3, Outcome::NoMatchingEntry { index: s("nmidx"), key: s("absent") });
    assert_eq!(row_count(&path, "nmidx"), 1);
}

#[test]
fn remove_reports_missing_and_deletes_exactly_one() {
    let path = db("remove");
    let mut store = Store::open(&path).expect("open store");
    let mut manage = Manage::new();
    manage.create_table(&mut store, &[s("rmidx")]).expect("create");
    let mut edit = Edit::new();
    let r = edit.remove(&mut store, &[s("rmidx"), s("ghost")]).expect("remove missing");
    assert_eq!(r, Outcome::EntryMissing { key: s("ghost") });
    assert_eq!(row_count(&path, "rmidx"), 0);
    let mut edit2 = Edit::new();
    edit2.add(&mut store, &[s("rmidx"), s("a"), s("1")]).expect("add a");
    let mut edit3 = Edit::new();
    edit3.add(&mut store, &[s("rmidx"), s("b"), s("2")]).expect("add b");
    assert_eq!(row_count(&path, "rmidx"), 2);
    let mut edit4 = Edit::new();
    let r2 = edit4.remove(&mut store, &[s("rmidx"), s("a")]).expect("remove existing");
    assert_eq!(r2, Outcome::EntryRemoved { key: s("a") });
    assert_eq!(row_count(&path, "rmidx"), 1);
    assert_eq!(store.contains_entry("rmidx", "a"), Ok(false));
    assert_eq!(store.contains_entry("rmidx", "b"), Ok(true));
}

#[test]
fn init_loads_records_keyed_by_field() {
    let path = db("init");
    let mut store = Store::open(&path).expect("open store");
    let mut manage = Manage::new();
    let r = manage
        .init_index(
            &mut store,
            &[s("books"), s("id"), s("[{\"id\":\"a\",\"v\":1},{\"id\":\"b\",\"v\":2}]")],
        )
        .expect("init");
    assert_eq!(r, Outcome::Initialized { index: s("books"), count: 2 });
    assert_eq!(row_count(&path, "books"), 2);
    assert_eq!(row_data(&path, "books", "a"), s("{\"id\":\"a\",\"v\":1}"));
    assert_eq!(row_data(&path, "books", "b"), s("{\"id\":\"b\",\"v\":2}"));
}

#[test]
fn init_rejects_unparsable_payload() {
    let path = db("initbad");
    let mut store = Store::open(&path).expect("open store");
    let mut manage = Manage::new();
    let r = manage.init_index(&mut store, &[s("badjson"), s("id"), s("not json")]);
    assert!(matches!(r, Err(CmdError::ParseFailed { .. })));
    // the table was still created, and stands empty
    assert_eq!(row_count(&path, "badjson"), 0);
}

#[test]
fn init_rejects_record_without_key_field() {
    let path = db("initnokey");
    let mut store = Store::open(&path).expect("open store");
    let mut manage = Manage::new();
    let r = manage.init_index(
        &mut store,
        &[s("nokey"), s("id"), s("[{\"id\":\"a\"},{\"other\":\"b\"}]")],
    );
    match r {
        Err(CmdError::ParseFailed { detail }) => {
            assert_eq!(detail, s("a record is missing the key field"));
        },
        other => panic!("expected a parse failure, got {:?}", other),
    }
    // the batch stopped at the bad record; the first one stands
    assert_eq!(row_count(&path, "nokey"), 1);
}

#[test]
fn init_stops_at_duplicate_keys_in_the_batch() {
    let path = db("initdup");
    let mut store = Store::open(&path).expect("open store");
    let mut manage = Manage::new();
    let r = manage.init_index(
        &mut store,
        &[s("dupidx"), s("id"), s("[{\"id\":\"a\",\"v\":1},{\"id\":\"a\",\"v\":2}]")],
    );
    match r {
        Err(CmdError::StoreFailed { err }) => assert_eq!(err, StoreError::DuplicateKey),
        other => panic!("expected a duplicate-key failure, got {:?}", other),
    }
    // the first record stands; the conflicting one was refused
    assert_eq!(row_count(&path, "dupidx"), 1);
    assert_eq!(row_data(&path, "dupidx", "a"), s("{\"id\":\"a\",\"v\":1}"));
}

#[test]
fn delete_drops_the_table_and_tolerates_absence() {
    let path = db("delete");
    let mut store = Store::open(&path).expect("open store");
    let mut manage = Manage::new();
    manage.create_table(&mut store, &[s("delidx")]).expect("create");
    let mut manage2 = Manage::new();
    let r = manage2.delete_index(&mut store, &[s("delidx")]).expect("delete");
    assert_eq!(r, Outcome::Deleted { index: s("delidx") });
    assert_eq!(store.contains_entry("delidx", "k"), Err(StoreError::NoIndex));
    // deleting an index that is not there still succeeds
    let mut manage3 = Manage::new();
    let r2 = manage3.delete_index(&mut store, &[s("delidx")]).expect("delete again");
    assert_eq!(r2, Outcome::Deleted { index: s("delidx") });
}

#[test]
fn missing_parameter_leaves_store_untouched() {
    let path = db("missingparam");
    let mut store = Store::open(&path).expect("open store");
    let mut manage = Manage::new();
    manage.create_table(&mut store, &[s("mpidx")]).expect("create");
    let mut edit = Edit::new();
    let r = edit.add(&mut store, &[s("mpidx"), s("mykey")]);
    match r {
        Err(CmdError::MissingParam { param }) => assert_eq!(param, s("data")),
        other => panic!("expected a missing-parameter error, got {:?}", other),
    }
    assert_eq!(row_count(&path, "mpidx"), 0);
}

#[test]
fn operations_on_absent_store_report_no_index() {
    // a store whose file holds no index at all: what remains after the
    // backing file was purged and re-created
    let path = db("purged_fresh");
    let mut store = Store::open(&path).expect("open store");
    let mut edit = Edit::new();
    let r = edit
        .add(&mut store, &[s("nevermade"), s("k"), s("v")])
        .expect("add against missing index");
    assert_eq!(
        r,
        Outcome::AddFailed { index: s("nevermade"), key: s("k"), err: StoreError::NoIndex }
    );
    let mut edit2 = Edit::new();
    let r2 = edit2
        .update(&mut store, &[s("nevermade"), s("k"), s("v")])
        .expect("update against missing index");
    assert_eq!(r2, Outcome::EditFailed { err: StoreError::NoIndex });
    let mut edit3 = Edit::new();
    let r3 = edit3
        .remove(&mut store, &[s("nevermade"), s("k")])
        .expect("remove against missing index");
    assert_eq!(r3, Outcome::EditFailed { err: StoreError::NoIndex });
    assert_eq!(store.contains_entry("nevermade", "k"), Err(StoreError::NoIndex));
}

#[test]
fn mixed_case_index_names_are_refused() {
    let path = db("mixedcase");
    let mut store = Store::open(&path).expect("open store");
    let mut manage = Manage::new();
    manage.create_table(&mut store, &[s("aliased")]).expect("create");
    // the engine resolves table names without regard to ASCII case, so a
    // second spelling of the same name is refused before it reaches SQL
    let mut manage2 = Manage::new();
    let r = manage2.create_table(&mut store, &[s("Aliased")]);
    assert!(matches!(r, Err(CmdError::InvalidParam { .. })));
    let mut edit = Edit::new();
    let r2 = edit.add(&mut store, &[s("ALIASED"), s("k"), s("v")]);
    assert!(matches!(r2, Err(CmdError::InvalidParam { .. })));
}

#[test]
fn validation_blocks_injection_shaped_index_names() {
    let path = db("inject");
    let mut store = Store::open(&path).expect("open store");
    let mut manage = Manage::new();
    let r = manage.create_table(&mut store, &[s("x`; DROP TABLE y; --")]);
    assert!(matches!(r, Err(CmdError::InvalidParam { .. })));
}
