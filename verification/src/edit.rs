//! The edit command: adds, updates and removes single entries of an
//! index. Store-level refusals are reported outcomes here, not process
//! failures: adding an existing key, or touching a missing index, comes
//! back as a report and leaves the store unchanged.

use vstd::prelude::*;

verus! {

use crate::command::{
    bind_error_ok, bind_fails_at, bind_ok, bind_stop, bound_upto, lemma_bind_ok_no_fail,
    lemma_param_names_distinct, rules_v, Command, ParamMap, ParamRule, Runnable, RuleV,
};
use crate::gui::GUI;
use crate::outcome::{CmdError, Outcome, StoreError};
use crate::store::{DbModel, Store};
use crate::tool::{ci_equal, str_eq, str_eq_ci};
use crate::validation::{is_sql_ident, StringValidation};

/// The row-editing command.
pub struct Edit {
    pub params: ParamMap,
}

/// The actions the edit command serves.
pub enum Actions {
    Add,
    Update,
    Remove,
    Help,
}

/// Which action an action word names, up to ASCII case; anything
/// unrecognised shows the help text.
pub open spec fn parse_action(s: Seq<char>) -> Actions {
    if ci_equal(s, "add"@) {
        Actions::Add
    } else if ci_equal(s, "update"@) {
        Actions::Update
    } else if ci_equal(s, "remove"@) {
        Actions::Remove
    } else {
        Actions::Help
    }
}

/// The rules of `add`: a table-safe index name, a key, a payload.
pub open spec fn add_rules_v() -> Seq<RuleV> {
    seq![
        ("index"@, StringValidation::SqlTable, true),
        ("key"@, StringValidation::SqlText, true),
        ("data"@, StringValidation::Ignore, true),
    ]
}

/// The rules of `update`: as `add`, plus an optional boolean `create`.
pub open spec fn update_rules_v() -> Seq<RuleV> {
    seq![
        ("index"@, StringValidation::SqlTable, true),
        ("key"@, StringValidation::SqlText, true),
        ("data"@, StringValidation::Ignore, true),
        ("create"@, StringValidation::Bool, false),
    ]
}

/// The rules of `remove`: a table-safe index name and a key.
pub open spec fn remove_rules_v() -> Seq<RuleV> {
    seq![("index"@, StringValidation::SqlTable, true), ("key"@, StringValidation::Ignore, true)]
}

/// The `create` flag is set: bound, and bound to the word `"true"`. A
/// bound `"false"`, or the parameter's own name echoed back, does not
/// set it.
pub open spec fn create_requested(m: Map<Seq<char>, Seq<char>>) -> bool {
    m.contains_key("create"@) && m["create"@] == "true"@
}

/// What `add` promises. `p0`/`p1` are the handler's bound parameters
/// before and after, `s0`/`s1` the store model before and after, `av`
/// the argument views, `r` the result.
pub open spec fn add_post(
    p0: Map<Seq<char>, Seq<char>>,
    p1: Map<Seq<char>, Seq<char>>,
    s0: DbModel,
    s1: DbModel,
    av: Seq<Seq<char>>,
    r: Result<Outcome, CmdError>,
) -> bool {
    let rv = add_rules_v();
    &&& p1 == bound_upto(p0, rv, av, bind_stop(rv, av, 0))
    &&& match r {
        Err(e) => s1 == s0 && bind_error_ok(rv, av, e),
        Ok(o) => bind_ok(rv, av) && match o {
            Outcome::EntryAdded { index, key } => {
                &&& index@ == av[0]
                &&& key@ == av[1]
                &&& s0.contains_key(av[0])
                &&& !s0[av[0]].contains_key(av[1])
                &&& s1 == s0.insert(av[0], s0[av[0]].insert(av[1], av[2]))
            },
            Outcome::AddFailed { index, key, err } => {
                &&& index@ == av[0]
                &&& key@ == av[1]
                &&& s1 == s0
                &&& (err is NoIndex ==> !s0.contains_key(av[0]))
                &&& (err is DuplicateKey ==> s0.contains_key(av[0]) && s0[av[0]].contains_key(
                    av[1],
                ))
            },
            _ => false,
        },
    }
    &&& (bind_ok(rv, av) && !s0.contains_key(av[0]) ==> (r matches Ok(
        Outcome::AddFailed { .. },
    )))
    &&& (bind_ok(rv, av) && s0.contains_key(av[0]) && s0[av[0]].contains_key(av[1]) ==> (r matches
    Ok(Outcome::AddFailed { .. })))
}

/// What `update` promises. With the `create` flag set and no matching
/// key, it behaves as `add` does; otherwise a missing key is the
/// reported outcome `NoMatchingEntry` and nothing changes.
pub open spec fn update_post(
    p0: Map<Seq<char>, Seq<char>>,
    p1: Map<Seq<char>, Seq<char>>,
    s0: DbModel,
    s1: DbModel,
    av: Seq<Seq<char>>,
    r: Result<Outcome, CmdError>,
) -> bool {
    let rv = update_rules_v();
    let b = bound_upto(p0, rv, av, bind_stop(rv, av, 0));
    let flag = create_requested(b);
    &&& p1 == b
    &&& match r {
        Err(e) => s1 == s0 && bind_error_ok(rv, av, e),
        Ok(o) => bind_ok(rv, av) && match o {
            Outcome::EntryAdded { index, key } => {
                &&& flag
                &&& index@ == av[0]
                &&& key@ == av[1]
                &&& s0.contains_key(av[0])
                &&& !s0[av[0]].contains_key(av[1])
                &&& s1 == s0.insert(av[0], s0[av[0]].insert(av[1], av[2]))
            },
            Outcome::AddFailed { index, key, err } => {
                &&& flag
                &&& index@ == av[0]
                &&& key@ == av[1]
                &&& s1 == s0
                &&& s0.contains_key(av[0])
                &&& !s0[av[0]].contains_key(av[1])
                &&& err is Other
            },
            Outcome::EntryUpdated { index, key } => {
                &&& index@ == av[0]
                &&& key@ == av[1]
                &&& s0.contains_key(av[0])
                &&& s0[av[0]].contains_key(av[1])
                &&& s1 == s0.insert(av[0], s0[av[0]].insert(av[1], av[2]))
            },
            Outcome::NoMatchingEntry { index, key } => {
                &&& !flag
                &&& index@ == av[0]
                &&& key@ == av[1]
                &&& s0.contains_key(av[0])
                &&& !s0[av[0]].contains_key(av[1])
                &&& s1 == s0
            },
            Outcome::EditFailed { err } => {
                &&& s1 == s0
                &&& !(err is DuplicateKey)
                &&& (err is NoIndex ==> !s0.contains_key(av[0]))
            },
            _ => false,
        },
    }
    &&& (bind_ok(rv, av) && !s0.contains_key(av[0]) ==> (r matches Ok(
        Outcome::EditFailed { .. },
    )))
}

/// What `remove` promises: a present key is deleted, a missing one is
/// the reported outcome `EntryMissing` and nothing changes.
pub open spec fn remove_post(
    p0: Map<Seq<char>, Seq<char>>,
    p1: Map<Seq<char>, Seq<char>>,
    s0: DbModel,
    s1: DbModel,
    av: Seq<Seq<char>>,
    r: Result<Outcome, CmdError>,
) -> bool {
    let rv = remove_rules_v();
    &&& p1 == bound_upto(p0, rv, av, bind_stop(rv, av, 0))
    &&& match r {
        Err(e) => s1 == s0 && bind_error_ok(rv, av, e),
        Ok(o) => bind_ok(rv, av) && match o {
            Outcome::EntryRemoved { key } => {
                &&& key@ == av[1]
                &&& s0.contains_key(av[0])
                &&& s0[av[0]].contains_key(av[1])
                &&& s1 == s0.insert(av[0], s0[av[0]].remove(av[1]))
            },
            Outcome::EntryMissing { key } => {
                &&& key@ == av[1]
                &&& s0.contains_key(av[0])
                &&& !s0[av[0]].contains_key(av[1])
                &&& s1 == s0
            },
            Outcome::EditFailed { err } => {
                &&& s1 == s0
                &&& !(err is DuplicateKey)
                &&& (err is NoIndex ==> !s0.contains_key(av[0]))
            },
            _ => false,
        },
    }
    &&& (bind_ok(rv, av) && !s0.contains_key(av[0]) ==> (r matches Ok(
        Outcome::EditFailed { .. },
    )))
}

/// After a complete `add` binding, the three values stand in the map
/// under their names, and the index name is table-safe.
proof fn lemma_add_bound(m0: Map<Seq<char>, Seq<char>>, av: Seq<Seq<char>>)
    requires
        bind_ok(add_rules_v(), av),
    ensures
        ({
            let b = bound_upto(m0, add_rules_v(), av, 3);
            &&& av.len() >= 3
            &&& is_sql_ident(av[0])
            &&& b.contains_key("index"@) && b["index"@] == av[0]
            &&& b.contains_key("key"@) && b["key"@] == av[1]
            &&& b.contains_key("data"@) && b["data"@] == av[2]
        }),
{
    lemma_param_names_distinct();
    lemma_bind_ok_no_fail(add_rules_v(), av);
    let rv = add_rules_v();
    assert(rv[0] == ("index"@, StringValidation::SqlTable, true));
    assert(rv[1] == ("key"@, StringValidation::SqlText, true));
    assert(rv[2] == ("data"@, StringValidation::Ignore, true));
    assert(!bind_fails_at(rv, av, 0));
    assert(!bind_fails_at(rv, av, 1));
    assert(!bind_fails_at(rv, av, 2));
    assert(bound_upto(m0, rv, av, 0) == m0);
    assert(bound_upto(m0, rv, av, 1) == m0.insert("index"@, av[0]));
    assert(bound_upto(m0, rv, av, 2) == bound_upto(m0, rv, av, 1).insert("key"@, av[1]));
    assert(bound_upto(m0, rv, av, 3) == bound_upto(m0, rv, av, 2).insert("data"@, av[2]));
}

/// After a complete `update` binding, the three required values stand in
/// the map under their names, and the index name is table-safe.
proof fn lemma_update_bound(m0: Map<Seq<char>, Seq<char>>, av: Seq<Seq<char>>)
    requires
        bind_ok(update_rules_v(), av),
    ensures
        ({
            let b = bound_upto(m0, update_rules_v(), av, 4);
            &&& av.len() >= 3
            &&& is_sql_ident(av[0])
            &&& b.contains_key("index"@) && b["index"@] == av[0]
            &&& b.contains_key("key"@) && b["key"@] == av[1]
            &&& b.contains_key("data"@) && b["data"@] == av[2]
        }),
{
    lemma_param_names_distinct();
    lemma_bind_ok_no_fail(update_rules_v(), av);
    let rv = update_rules_v();
    assert(rv[0] == ("index"@, StringValidation::SqlTable, true));
    assert(rv[1] == ("key"@, StringValidation::SqlText, true));
    assert(rv[2] == ("data"@, StringValidation::Ignore, true));
    assert(rv[3] == ("create"@, StringValidation::Bool, false));
    assert(!bind_fails_at(rv, av, 0));
    assert(!bind_fails_at(rv, av, 1));
    assert(!bind_fails_at(rv, av, 2));
    assert(!bind_fails_at(rv, av, 3));
    assert(bound_upto(m0, rv, av, 0) == m0);
    assert(bound_upto(m0, rv, av, 1) == m0.insert("index"@, av[0]));
    assert(bound_upto(m0, rv, av, 2) == bound_upto(m0, rv, av, 1).insert("key"@, av[1]));
    assert(bound_upto(m0, rv, av, 3) == bound_upto(m0, rv, av, 2).insert("data"@, av[2]));
    assert(bound_upto(m0, rv, av, 4) == (if 3 < av.len() && av[3] == "true"@ || 3 < av.len()
        && av[3] == "false"@ || 3 < av.len() && av[3] == "create"@ {
        bound_upto(m0, rv, av, 3).insert("create"@, av[3])
    } else {
        bound_upto(m0, rv, av, 3)
    }));
}

/// After a complete `remove` binding, the two values stand in the map
/// under their names, and the index name is table-safe.
proof fn lemma_remove_bound(m0: Map<Seq<char>, Seq<char>>, av: Seq<Seq<char>>)
    requires
        bind_ok(remove_rules_v(), av),
    ensures
        ({
            let b = bound_upto(m0, remove_rules_v(), av, 2);
            &&& av.len() >= 2
            &&& is_sql_ident(av[0])
            &&& b.contains_key("index"@) && b["index"@] == av[0]
            &&& b.contains_key("key"@) && b["key"@] == av[1]
        }),
{
    lemma_param_names_distinct();
    lemma_bind_ok_no_fail(remove_rules_v(), av);
    let rv = remove_rules_v();
    assert(rv[0] == ("index"@, StringValidation::SqlTable, true));
    assert(rv[1] == ("key"@, StringValidation::Ignore, true));
    assert(!bind_fails_at(rv, av, 0));
    assert(!bind_fails_at(rv, av, 1));
    assert(bound_upto(m0, rv, av, 0) == m0);
    assert(bound_upto(m0, rv, av, 1) == m0.insert("index"@, av[0]));
    assert(bound_upto(m0, rv, av, 2) == bound_upto(m0, rv, av, 1).insert("key"@, av[1]));
}

/// Adding the same key twice fails on the second call. After an `add`
/// that reported `EntryAdded`, the index holds the key — so a
/// containment check (`Store::contains_entry`) reports true — and a
/// second `add` of the same index and key can only report `AddFailed`,
/// leaving the store as it was.
pub proof fn lemma_add_then_add(
    p0: Map<Seq<char>, Seq<char>>,
    p1: Map<Seq<char>, Seq<char>>,
    q0: Map<Seq<char>, Seq<char>>,
    q1: Map<Seq<char>, Seq<char>>,
    s0: DbModel,
    s1: DbModel,
    s2: DbModel,
    av: Seq<Seq<char>>,
    r1: Result<Outcome, CmdError>,
    r2: Result<Outcome, CmdError>,
)
    requires
        add_post(p0, p1, s0, s1, av, r1),
        r1 matches Ok(Outcome::EntryAdded { .. }),
        add_post(q0, q1, s1, s2, av, r2),
    ensures
        s1.contains_key(av[0]) && s1[av[0]].contains_key(av[1]),
        r2 matches Ok(Outcome::AddFailed { .. }),
        s2 == s1,
{
}

/// With the `create` flag set and no entry under the key, `update`
/// does to the store exactly what `add` does: it inserts the entry and
/// reports it added — after which the index holds the key — or it
/// reports the engine's refusal (`AddFailed` from the insert itself,
/// `EditFailed` from the containment check before it) and changes
/// nothing. The refusal on these inputs can only be an engine fault,
/// never a duplicate-key or missing-index error.
pub proof fn lemma_upsert_matches_add(
    p0: Map<Seq<char>, Seq<char>>,
    p1: Map<Seq<char>, Seq<char>>,
    s0: DbModel,
    s1: DbModel,
    av: Seq<Seq<char>>,
    r: Result<Outcome, CmdError>,
)
    requires
        update_post(p0, p1, s0, s1, av, r),
        r is Ok,
        create_requested(p1),
        s0.contains_key(av[0]),
        !s0[av[0]].contains_key(av[1]),
    ensures
        match r {
            Ok(Outcome::EntryAdded { index, key }) => index@ == av[0] && key@ == av[1] && s1
                == s0.insert(av[0], s0[av[0]].insert(av[1], av[2])) && s1[av[0]].contains_key(
                av[1],
            ),
            Ok(Outcome::AddFailed { err, .. }) => s1 == s0 && err is Other,
            Ok(Outcome::EditFailed { err }) => s1 == s0 && err is Other,
            _ => false,
        },
{
}

impl Edit {
    /// A fresh handler with no parameter bound.
    pub fn new() -> (r: Edit)
        ensures
            r.params@ == Map::<Seq<char>, Seq<char>>::empty(),
            r.params.entries() == Seq::<(Seq<char>, Seq<char>)>::empty(),
    {
        Edit { params: ParamMap::new() }
    }

    /// Whether the optional parameter named `key` was bound to `"true"`.
    fn get_param_bool(&self, key: &str) -> (r: bool)
        ensures
            r == (self.params@.contains_key(key@) && self.params@[key@] == "true"@),
    {
        match self.params.get(key) {
            Some(v) => str_eq(v.as_str(), "true"),
            None => false,
        }
    }

    /// Inserts a new entry under the bound index, key and data.
    pub fn add(&mut self, store: &mut Store, params: &[String]) -> (r: Result<Outcome, CmdError>)
        ensures
            add_post(
                old(self).params@,
                final(self).params@,
                old(store)@,
                final(store)@,
                params@.map_values(|s: String| s@),
                r,
            ),
    {
        let rules = vec![
            ParamRule { key: "index", validation: StringValidation::SqlTable, required: true },
            ParamRule { key: "key", validation: StringValidation::SqlText, required: true },
            ParamRule { key: "data", validation: StringValidation::Ignore, required: true },
        ];
        let ghost av = params@.map_values(|s: String| s@);
        proof {
            assert(rules_v(rules@) =~= add_rules_v());
        }
        if let Err(e) = self.assert_params(rules.as_slice(), params) {
            return Err(e);
        }
        proof {
            lemma_add_bound(old(self).params@, av);
        }
        let result = self.add_new_entry(store);
        let index = self.get_param("index").clone();
        let key = self.get_param("key").clone();
        match result {
            Ok(()) => Ok(Outcome::EntryAdded { index, key }),
            Err(err) => Ok(Outcome::AddFailed { index, key, err }),
        }
    }

    /// Updates the entry matching the bound key; with the `create` flag
    /// set and no matching entry, inserts one as `add` would.
    pub fn update(&mut self, store: &mut Store, params: &[String]) -> (r: Result<
        Outcome,
        CmdError,
    >)
        ensures
            update_post(
                old(self).params@,
                final(self).params@,
                old(store)@,
                final(store)@,
                params@.map_values(|s: String| s@),
                r,
            ),
    {
        let rules = vec![
            ParamRule { key: "index", validation: StringValidation::SqlTable, required: true },
            ParamRule { key: "key", validation: StringValidation::SqlText, required: true },
            ParamRule { key: "data", validation: StringValidation::Ignore, required: true },
            ParamRule { key: "create", validation: StringValidation::Bool, required: false },
        ];
        let ghost av = params@.map_values(|s: String| s@);
        proof {
            assert(rules_v(rules@) =~= update_rules_v());
        }
        if let Err(e) = self.assert_params(rules.as_slice(), params) {
            return Err(e);
        }
        proof {
            lemma_update_bound(old(self).params@, av);
        }
        let create = self.get_param_bool("create");
        if create {
            match self.does_entry_exist(store) {
                Err(err) => {
                    return Ok(Outcome::EditFailed { err });
                },
                Ok(false) => {
                    let result = self.add_new_entry(store);
                    let index = self.get_param("index").clone();
                    let key = self.get_param("key").clone();
                    return match result {
                        Ok(()) => Ok(Outcome::EntryAdded { index, key }),
                        Err(err) => Ok(Outcome::AddFailed { index, key, err }),
                    };
                },
                Ok(true) => {},
            }
        }
        let result = self.update_entry(store);
        let index = self.get_param("index").clone();
        let key = self.get_param("key").clone();
        match result {
            Err(err) => Ok(Outcome::EditFailed { err }),
            Ok(true) => Ok(Outcome::EntryUpdated { index, key }),
            Ok(false) => Ok(Outcome::NoMatchingEntry { index, key }),
        }
    }

    /// Deletes the entry matching the bound key, reporting whether one
    /// was there.
    pub fn remove(&mut self, store: &mut Store, params: &[String]) -> (r: Result<
        Outcome,
        CmdError,
    >)
        ensures
            remove_post(
                old(self).params@,
                final(self).params@,
                old(store)@,
                final(store)@,
                params@.map_values(|s: String| s@),
                r,
            ),
    {
        let rules = vec![
            ParamRule { key: "index", validation: StringValidation::SqlTable, required: true },
            ParamRule { key: "key", validation: StringValidation::Ignore, required: true },
        ];
        let ghost av = params@.map_values(|s: String| s@);
        proof {
            assert(rules_v(rules@) =~= remove_rules_v());
        }
        if let Err(e) = self.assert_params(rules.as_slice(), params) {
            return Err(e);
        }
        proof {
            lemma_remove_bound(old(self).params@, av);
        }
        let result = self.remove_entry(store);
        let key = self.get_param("key").clone();
        match result {
            Err(err) => Ok(Outcome::EditFailed { err }),
            Ok(true) => Ok(Outcome::EntryRemoved { key }),
            Ok(false) => Ok(Outcome::EntryMissing { key }),
        }
    }

    /// Whether the bound index holds an entry with the bound key.
    fn does_entry_exist(&self, store: &Store) -> (r: Result<bool, StoreError>)
        requires
            self.params@.contains_key("index"@),
            self.params@.contains_key("key"@),
            is_sql_ident(self.params@["index"@]),
        ensures
            ({
                let idx = self.params@["index"@];
                let key = self.params@["key"@];
                &&& (!store@.contains_key(idx) ==> r is Err)
                &&& match r {
                    Ok(b) => store@.contains_key(idx) && b == store@[idx].contains_key(key),
                    Err(e) => !(e is DuplicateKey) && (e is NoIndex ==> !store@.contains_key(idx)),
                }
            }),
    {
        let index = self.get_param("index");
        let key = self.get_param("key");
        store.contains_entry(index.as_str(), key.as_str())
    }

    /// Inserts the bound key and data into the bound index.
    fn add_new_entry(&self, store: &mut Store) -> (r: Result<(), StoreError>)
        requires
            self.params@.contains_key("index"@),
            self.params@.contains_key("key"@),
            self.params@.contains_key("data"@),
            is_sql_ident(self.params@["index"@]),
        ensures
            ({
                let idx = self.params@["index"@];
                let key = self.params@["key"@];
                let data = self.params@["data"@];
                &&& (!old(store)@.contains_key(idx) ==> r is Err)
                &&& (old(store)@.contains_key(idx) && old(store)@[idx].contains_key(key)
                    ==> r is Err)
                &&& match r {
                    Ok(()) => old(store)@.contains_key(idx) && !old(store)@[idx].contains_key(key)
                        && final(store)@ == old(store)@.insert(
                        idx,
                        old(store)@[idx].insert(key, data),
                    ),
                    Err(e) => final(store)@ == old(store)@ && (e is NoIndex ==> !old(
                        store,
                    )@.contains_key(idx)) && (e is DuplicateKey ==> old(store)@.contains_key(idx)
                        && old(store)@[idx].contains_key(key)),
                }
            }),
    {
        let index = self.get_param("index");
        let key = self.get_param("key");
        let data = self.get_param("data");
        store.raw_insert(index.as_str(), key.as_str(), data.as_str())
    }

    /// Deletes the entry with the bound key; whether one was deleted.
    fn remove_entry(&self, store: &mut Store) -> (r: Result<bool, StoreError>)
        requires
            self.params@.contains_key("index"@),
            self.params@.contains_key("key"@),
            is_sql_ident(self.params@["index"@]),
        ensures
            ({
                let idx = self.params@["index"@];
                let key = self.params@["key"@];
                &&& (!old(store)@.contains_key(idx) ==> r is Err)
                &&& match r {
                    Ok(b) => old(store)@.contains_key(idx) && b == old(store)@[idx].contains_key(
                        key,
                    ) && (if b {
                        final(store)@ == old(store)@.insert(idx, old(store)@[idx].remove(key))
                    } else {
                        final(store)@ == old(store)@
                    }),
                    Err(e) => final(store)@ == old(store)@ && !(e is DuplicateKey) && (e is NoIndex
                        ==> !old(store)@.contains_key(idx)),
                }
            }),
    {
        let index = self.get_param("index");
        let key = self.get_param("key");
        match store.raw_delete(index.as_str(), key.as_str()) {
            Ok(n) => Ok(n > 0),
            Err(e) => Err(e),
        }
    }

    /// Writes the bound data over the entry with the bound key; whether
    /// an entry matched.
    fn update_entry(&self, store: &mut Store) -> (r: Result<bool, StoreError>)
        requires
            self.params@.contains_key("index"@),
            self.params@.contains_key("key"@),
            self.params@.contains_key("data"@),
            is_sql_ident(self.params@["index"@]),
        ensures
            ({
                let idx = self.params@["index"@];
                let key = self.params@["key"@];
                let data = self.params@["data"@];
                &&& (!old(store)@.contains_key(idx) ==> r is Err)
                &&& match r {
                    Ok(b) => old(store)@.contains_key(idx) && b == old(store)@[idx].contains_key(
                        key,
                    ) && (if b {
                        final(store)@ == old(store)@.insert(idx, old(store)@[idx].insert(key, data))
                    } else {
                        final(store)@ == old(store)@
                    }),
                    Err(e) => final(store)@ == old(store)@ && !(e is DuplicateKey) && (e is NoIndex
                        ==> !old(store)@.contains_key(idx)),
                }
            }),
    {
        let index = self.get_param("index");
        let key = self.get_param("key");
        let data = self.get_param("data");
        match store.raw_update(index.as_str(), key.as_str(), data.as_str()) {
            Ok(n) => Ok(n > 0),
            Err(e) => Err(e),
        }
    }
}

impl Runnable for Edit {
    fn run(&mut self, store: &mut Store, action: &String, params: &[String]) -> (r: Result<
        Outcome,
        CmdError,
    >)
        ensures
            ({
                let av = params@.map_values(|s: String| s@);
                match parse_action(action@) {
                    Actions::Add => add_post(
                        old(self).params@,
                        final(self).params@,
                        old(store)@,
                        final(store)@,
                        av,
                        r,
                    ),
                    Actions::Update => update_post(
                        old(self).params@,
                        final(self).params@,
                        old(store)@,
                        final(store)@,
                        av,
                        r,
                    ),
                    Actions::Remove => remove_post(
                        old(self).params@,
                        final(self).params@,
                        old(store)@,
                        final(store)@,
                        av,
                        r,
                    ),
                    Actions::Help => final(self).params@ == old(self).params@ && final(store)@
                        == old(store)@ && (r matches Ok(Outcome::Help { .. })),
                }
            }),
    {
        let a = action_of(action);
        match a {
            Actions::Add => self.add(store, params),
            Actions::Update => self.update(store, params),
            Actions::Remove => self.remove(store, params),
            Actions::Help => Ok(Outcome::Help { text: self.help() }),
        }
    }
}

/// The action named by the action word, up to ASCII case.
fn action_of(action: &String) -> (r: Actions)
    ensures
        r == parse_action(action@),
{
    if str_eq_ci(action.as_str(), "add") {
        Actions::Add
    } else if str_eq_ci(action.as_str(), "update") {
        Actions::Update
    } else if str_eq_ci(action.as_str(), "remove") {
        Actions::Remove
    } else {
        Actions::Help
    }
}

impl Command for Edit {
    open spec fn param_entries(&self) -> Seq<(Seq<char>, Seq<char>)> {
        self.params.entries()
    }

    fn set_params(&mut self, params: ParamMap) {
        self.params = params;
    }

    fn get_params(&self) -> (r: &ParamMap) {
        &self.params
    }

    fn get_param(&self, key: &str) -> (r: &String) {
        match self.params.get(key) {
            Some(v) => v,
            None => vstd::pervasive::unreached(),
        }
    }

    fn assert_params(&mut self, rules: &[ParamRule], params: &[String]) -> (r: Result<
        (),
        CmdError,
    >) {
        crate::command::bind_params(&mut self.params, rules, params)
    }

    fn help(&self) -> (r: String) {
        let mut g = GUI::new();
        g.title("Edit Command");
        g.sub_title("actions:");
        g.nl();
        g.content(
            "create: {index} {key} {data}              | Create a new entry in {index} with {key} and {data}",
        );
        g.content(
            "update: {index} {key} {data} {?create}    | Update entry in {index} that matches {key} with {data}",
        );
        g.content("remove: {index} {key}                     | Delete index and data");
        g.nl();
        g.content("* {?create} is an optional bool to create a new entry on no key match");
        g.nl();
        g.take()
    }
}

} // verus!
