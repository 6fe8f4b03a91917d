//! The manage command: creates, initializes, deletes whole indexes, and
//! asks for the store to be purged. Store failures here end the command,
//! unlike the row-editing verbs. An `init` that fails after creating its
//! table leaves the table standing: the contract pins where the batch
//! stopped and how much of it reached the store.

use vstd::prelude::*;

verus! {

use crate::command::{
    bind_error_ok, bind_fails_at, bind_ok, bind_stop, bound_upto, lemma_bind_ok_no_fail,
    lemma_param_names_distinct, rules_v, Command, ParamMap, ParamRule, Runnable, RuleV,
};
use crate::gui::GUI;
use crate::outcome::{CmdError, Outcome};
use crate::store::{
    keys_present, load_failed_post, load_keyless_post, loaded, parse_obj_array, parsed_objs,
    DbModel, Store,
};
use crate::tool::{ci_equal, str_eq_ci};
use crate::validation::{is_sql_ident, StringValidation};

/// The index-management command.
pub struct Manage {
    pub params: ParamMap,
}

/// The actions the manage command serves.
pub enum Actions {
    Create,
    Init,
    Delete,
    Purge,
    Help,
}

/// Which action an action word names, up to ASCII case; anything
/// unrecognised shows the help text.
pub open spec fn parse_action(s: Seq<char>) -> Actions {
    if ci_equal(s, "create"@) {
        Actions::Create
    } else if ci_equal(s, "init"@) {
        Actions::Init
    } else if ci_equal(s, "delete"@) {
        Actions::Delete
    } else if ci_equal(s, "purge"@) {
        Actions::Purge
    } else {
        Actions::Help
    }
}

/// The rules of `create` and `delete`: one table-safe index name.
pub open spec fn index_rules_v() -> Seq<RuleV> {
    seq![("index"@, StringValidation::SqlTable, true)]
}

/// The rules of `init`: a table-safe index name, the field that supplies
/// each record's key, and the JSON payload.
pub open spec fn init_rules_v() -> Seq<RuleV> {
    seq![
        ("index"@, StringValidation::SqlTable, true),
        ("key"@, StringValidation::SqlTable, true),
        ("data"@, StringValidation::Ignore, true),
    ]
}

/// What `create` promises: on success the index exists and is empty,
/// whatever it held before, and the report says whether it is new.
pub open spec fn create_post(
    p0: Map<Seq<char>, Seq<char>>,
    p1: Map<Seq<char>, Seq<char>>,
    s0: DbModel,
    s1: DbModel,
    av: Seq<Seq<char>>,
    r: Result<Outcome, CmdError>,
) -> bool {
    let rv = index_rules_v();
    &&& p1 == bound_upto(p0, rv, av, bind_stop(rv, av, 0))
    &&& match r {
        Ok(Outcome::Created { index, fresh }) => {
            &&& bind_ok(rv, av)
            &&& index@ == av[0]
            &&& fresh == !s0.contains_key(av[0])
            &&& s1 == s0.insert(av[0], Map::<Seq<char>, Seq<char>>::empty())
        },
        Ok(_) => false,
        Err(CmdError::StoreFailed { err }) => bind_ok(rv, av) && (s1 == s0 || s1 == s0.remove(
            av[0],
        )) && err is Other,
        Err(e) => s1 == s0 && bind_error_ok(rv, av, e),
    }
}

/// What `init` promises: on success the index holds exactly the records
/// of the payload, keyed by the named field, each serialized back to
/// JSON. A payload that does not parse ends the command with the
/// parser's own report and a created, empty index; a record without a
/// string at the key field ends it at exactly the first such record; a
/// refused insert ends it with at most the loadable prefix standing,
/// and a duplicate-key report pins the stop at the first record whose
/// key an earlier one already bound.
pub open spec fn init_post(
    p0: Map<Seq<char>, Seq<char>>,
    p1: Map<Seq<char>, Seq<char>>,
    s0: DbModel,
    s1: DbModel,
    av: Seq<Seq<char>>,
    r: Result<Outcome, CmdError>,
) -> bool {
    let rv = init_rules_v();
    let empty = Map::<Seq<char>, Seq<char>>::empty();
    &&& p1 == bound_upto(p0, rv, av, bind_stop(rv, av, 0))
    &&& match r {
        Ok(Outcome::Initialized { index, count }) => {
            &&& bind_ok(rv, av)
            &&& index@ == av[0]
            &&& match parsed_objs(av[2]) {
                Some(objs) => {
                    &&& keys_present(objs, av[1])
                    &&& count == objs.len()
                    &&& s1 == s0.insert(av[0], loaded(empty, objs, av[1]))
                },
                None => false,
            }
        },
        Ok(_) => false,
        Err(CmdError::ParseFailed { detail }) => bind_ok(rv, av) && ((parsed_objs(av[2]) is None
            && s1 == s0.insert(av[0], empty)) || (match parsed_objs(av[2]) {
            Some(objs) => detail@ == "a record is missing the key field"@ && load_keyless_post(
                s0,
                s1,
                av[0],
                empty,
                objs,
                av[1],
            ),
            None => false,
        })),
        Err(CmdError::StoreFailed { err }) => bind_ok(rv, av) && (((s1 == s0 || s1 == s0.remove(
            av[0],
        )) && err is Other) || (match parsed_objs(av[2]) {
            Some(objs) => load_failed_post(s0, s1, av[0], empty, objs, av[1], err),
            None => false,
        })),
        Err(e) => s1 == s0 && bind_error_ok(rv, av, e),
    }
}

/// What `delete` promises: on success the index is gone, whether or not
/// it was there.
pub open spec fn delete_post(
    p0: Map<Seq<char>, Seq<char>>,
    p1: Map<Seq<char>, Seq<char>>,
    s0: DbModel,
    s1: DbModel,
    av: Seq<Seq<char>>,
    r: Result<Outcome, CmdError>,
) -> bool {
    let rv = index_rules_v();
    &&& p1 == bound_upto(p0, rv, av, bind_stop(rv, av, 0))
    &&& match r {
        Ok(Outcome::Deleted { index }) => {
            &&& bind_ok(rv, av)
            &&& index@ == av[0]
            &&& s1 == s0.remove(av[0])
        },
        Ok(_) => false,
        Err(CmdError::StoreFailed { err }) => bind_ok(rv, av) && s1 == s0 && err is Other,
        Err(e) => s1 == s0 && bind_error_ok(rv, av, e),
    }
}

/// After a complete one-rule binding, the index name stands in the map
/// and is table-safe.
proof fn lemma_index_bound(m0: Map<Seq<char>, Seq<char>>, av: Seq<Seq<char>>)
    requires
        bind_ok(index_rules_v(), av),
    ensures
        ({
            let b = bound_upto(m0, index_rules_v(), av, 1);
            &&& av.len() >= 1
            &&& is_sql_ident(av[0])
            &&& b.contains_key("index"@) && b["index"@] == av[0]
        }),
{
    lemma_param_names_distinct();
    lemma_bind_ok_no_fail(index_rules_v(), av);
    let rv = index_rules_v();
    assert(rv[0] == ("index"@, StringValidation::SqlTable, true));
    assert(!bind_fails_at(rv, av, 0));
    assert(bound_upto(m0, rv, av, 0) == m0);
    assert(bound_upto(m0, rv, av, 1) == m0.insert("index"@, av[0]));
}

/// After a complete `init` binding, the three values stand in the map
/// under their names, and the index name is table-safe.
proof fn lemma_init_bound(m0: Map<Seq<char>, Seq<char>>, av: Seq<Seq<char>>)
    requires
        bind_ok(init_rules_v(), av),
    ensures
        ({
            let b = bound_upto(m0, init_rules_v(), av, 3);
            &&& av.len() >= 3
            &&& is_sql_ident(av[0])
            &&& b.contains_key("index"@) && b["index"@] == av[0]
            &&& b.contains_key("key"@) && b["key"@] == av[1]
            &&& b.contains_key("data"@) && b["data"@] == av[2]
        }),
{
    lemma_param_names_distinct();
    lemma_bind_ok_no_fail(init_rules_v(), av);
    let rv = init_rules_v();
    assert(rv[0] == ("index"@, StringValidation::SqlTable, true));
    assert(rv[1] == ("key"@, StringValidation::SqlTable, true));
    assert(rv[2] == ("data"@, StringValidation::Ignore, true));
    assert(!bind_fails_at(rv, av, 0));
    assert(!bind_fails_at(rv, av, 1));
    assert(!bind_fails_at(rv, av, 2));
    assert(bound_upto(m0, rv, av, 0) == m0);
    assert(bound_upto(m0, rv, av, 1) == m0.insert("index"@, av[0]));
    assert(bound_upto(m0, rv, av, 2) == bound_upto(m0, rv, av, 1).insert("key"@, av[1]));
    assert(bound_upto(m0, rv, av, 3) == bound_upto(m0, rv, av, 2).insert("data"@, av[2]));
}

impl Manage {
    /// A fresh handler with no parameter bound.
    pub fn new() -> (r: Manage)
        ensures
            r.params@ == Map::<Seq<char>, Seq<char>>::empty(),
            r.params.entries() == Seq::<(Seq<char>, Seq<char>)>::empty(),
    {
        Manage { params: ParamMap::new() }
    }

    /// Drops and re-creates the bound index's table, reporting whether it
    /// was freshly created or reset.
    pub fn create_table(&mut self, store: &mut Store, params: &[String]) -> (r: Result<
        Outcome,
        CmdError,
    >)
        ensures
            create_post(
                old(self).params@,
                final(self).params@,
                old(store)@,
                final(store)@,
                params@.map_values(|s: String| s@),
                r,
            ),
    {
        let rules = vec![
            ParamRule { key: "index", validation: StringValidation::SqlTable, required: true },
        ];
        let ghost av = params@.map_values(|s: String| s@);
        proof {
            assert(rules_v(rules@) =~= index_rules_v());
        }
        if let Err(e) = self.assert_params(rules.as_slice(), params) {
            return Err(e);
        }
        proof {
            lemma_index_bound(old(self).params@, av);
        }
        let index = self.get_param("index").clone();
        match store.reset(index.as_str()) {
            Ok(fresh) => Ok(Outcome::Created { index, fresh }),
            Err(err) => Err(CmdError::StoreFailed { err }),
        }
    }

    /// Creates the bound index and fills it from the JSON payload: one
    /// entry per record, keyed by the record's value at the bound key
    /// field, holding the record serialized back to JSON.
    pub fn init_index(&mut self, store: &mut Store, params: &[String]) -> (r: Result<
        Outcome,
        CmdError,
    >)
        ensures
            init_post(
                old(self).params@,
                final(self).params@,
                old(store)@,
                final(store)@,
                params@.map_values(|s: String| s@),
                r,
            ),
    {
        let rules = vec![
            ParamRule { key: "index", validation: StringValidation::SqlTable, required: true },
            ParamRule { key: "key", validation: StringValidation::SqlTable, required: true },
            ParamRule { key: "data", validation: StringValidation::Ignore, required: true },
        ];
        let ghost av = params@.map_values(|s: String| s@);
        proof {
            assert(rules_v(rules@) =~= init_rules_v());
        }
        if let Err(e) = self.assert_params(rules.as_slice(), params) {
            return Err(e);
        }
        proof {
            lemma_init_bound(old(self).params@, av);
        }
        let index = self.get_param("index").clone();
        if let Err(err) = store.reset(index.as_str()) {
            return Err(CmdError::StoreFailed { err });
        }
        let records = {
            let data = self.get_param("data");
            match parse_obj_array(data.as_str()) {
                Ok(v) => v,
                Err(detail) => {
                    return Err(CmdError::ParseFailed { detail });
                },
            }
        };
        let key_field = self.get_param("key");
        let ghost mid = store@;
        let ghost empty = Map::<Seq<char>, Seq<char>>::empty();
        let result = store.bulk_load(index.as_str(), key_field.as_str(), &records);
        let r: Result<Outcome, CmdError> = match result {
            Ok(count) => {
                proof {
                    assert(store@ =~= old(store)@.insert(av[0], loaded(empty, records@, av[1])));
                }
                Ok(Outcome::Initialized { index, count })
            },
            Err(e) => {
                proof {
                    assert(mid[av[0]] == empty);
                    match parsed_objs(av[2]) {
                        Some(objs) => {
                            assert(objs == records@);
                            match &e {
                                CmdError::ParseFailed { .. } => {
                                    let stop = crate::store::load_stop(empty, objs, av[1], 0);
                                    assert(store@ =~= old(store)@.insert(
                                        av[0],
                                        loaded(empty, objs.take(stop), av[1]),
                                    ));
                                    assert(load_keyless_post(
                                        old(store)@,
                                        store@,
                                        av[0],
                                        empty,
                                        objs,
                                        av[1],
                                    ));
                                },
                                CmdError::StoreFailed { err } => {
                                    assert(load_failed_post(
                                        mid,
                                        store@,
                                        av[0],
                                        empty,
                                        objs,
                                        av[1],
                                        *err,
                                    ));
                                    let i = choose|i: int|
                                        0 <= i <= crate::store::load_stop(empty, objs, av[1], 0)
                                            && i < objs.len() && store@ == mid.insert(
                                            av[0],
                                            loaded(empty, objs.take(i), av[1]),
                                        ) && (*err is DuplicateKey ==> i == crate::store::load_stop(
                                            empty,
                                            objs,
                                            av[1],
                                            0,
                                        ) && crate::store::obj_str_at(objs[i], av[1]) is Some
                                            && loaded(empty, objs.take(i), av[1]).contains_key(
                                            crate::store::record_key(objs[i], av[1]),
                                        ));
                                    assert(store@ =~= old(store)@.insert(
                                        av[0],
                                        loaded(empty, objs.take(i), av[1]),
                                    ));
                                    assert(load_failed_post(
                                        old(store)@,
                                        store@,
                                        av[0],
                                        empty,
                                        objs,
                                        av[1],
                                        *err,
                                    ));
                                },
                                _ => {
                                    assert(false);
                                },
                            }
                        },
                        None => {
                            assert(false);
                        },
                    }
                }
                Err(e)
            },
        };
        r
    }

    /// Drops the bound index's table; dropping one that is not there is
    /// still a success.
    pub fn delete_index(&mut self, store: &mut Store, params: &[String]) -> (r: Result<
        Outcome,
        CmdError,
    >)
        ensures
            delete_post(
                old(self).params@,
                final(self).params@,
                old(store)@,
                final(store)@,
                params@.map_values(|s: String| s@),
                r,
            ),
    {
        let rules = vec![
            ParamRule { key: "index", validation: StringValidation::SqlTable, required: true },
        ];
        let ghost av = params@.map_values(|s: String| s@);
        proof {
            assert(rules_v(rules@) =~= index_rules_v());
        }
        if let Err(e) = self.assert_params(rules.as_slice(), params) {
            return Err(e);
        }
        proof {
            lemma_index_bound(old(self).params@, av);
        }
        let index = self.get_param("index").clone();
        match store.raw_drop(index.as_str()) {
            Ok(()) => Ok(Outcome::Deleted { index }),
            Err(err) => Err(CmdError::StoreFailed { err }),
        }
    }

    /// Asks for the whole store to be destroyed. Removing the backing
    /// file is I/O and sits with the caller, so this only reports the
    /// request.
    pub fn purge_db() -> (r: Result<Outcome, CmdError>)
        ensures
            r == Ok::<Outcome, CmdError>(Outcome::PurgeRequested),
    {
        Ok(Outcome::PurgeRequested)
    }
}

impl Runnable for Manage {
    fn run(&mut self, store: &mut Store, action: &String, params: &[String]) -> (r: Result<
        Outcome,
        CmdError,
    >)
        ensures
            ({
                let av = params@.map_values(|s: String| s@);
                match parse_action(action@) {
                    Actions::Create => create_post(
                        old(self).params@,
                        final(self).params@,
                        old(store)@,
                        final(store)@,
                        av,
                        r,
                    ),
                    Actions::Init => init_post(
                        old(self).params@,
                        final(self).params@,
                        old(store)@,
                        final(store)@,
                        av,
                        r,
                    ),
                    Actions::Delete => delete_post(
                        old(self).params@,
                        final(self).params@,
                        old(store)@,
                        final(store)@,
                        av,
                        r,
                    ),
                    Actions::Purge => final(self).params@ == old(self).params@ && final(store)@
                        == old(store)@ && r == Ok::<Outcome, CmdError>(Outcome::PurgeRequested),
                    Actions::Help => final(self).params@ == old(self).params@ && final(store)@
                        == old(store)@ && (r matches Ok(Outcome::Help { .. })),
                }
            }),
    {
        let a = action_of(action);
        match a {
            Actions::Create => self.create_table(store, params),
            Actions::Init => self.init_index(store, params),
            Actions::Delete => self.delete_index(store, params),
            Actions::Purge => Manage::purge_db(),
            Actions::Help => Ok(Outcome::Help { text: self.help() }),
        }
    }
}

/// The action named by the action word, up to ASCII case.
fn action_of(action: &String) -> (r: Actions)
    ensures
        r == parse_action(action@),
{
    if str_eq_ci(action.as_str(), "create") {
        Actions::Create
    } else if str_eq_ci(action.as_str(), "init") {
        Actions::Init
    } else if str_eq_ci(action.as_str(), "delete") {
        Actions::Delete
    } else if str_eq_ci(action.as_str(), "purge") {
        Actions::Purge
    } else {
        Actions::Help
    }
}

impl Command for Manage {
    open spec fn param_entries(&self) -> Seq<(Seq<char>, Seq<char>)> {
        self.params.entries()
    }

    fn set_params(&mut self, params: ParamMap) {
        self.params = params;
    }

    fn get_params(&self) -> (r: &ParamMap) {
        &self.params
    }

    fn get_param(&self, key: &str) -> (r: &String) {
        match self.params.get(key) {
            Some(v) => v,
            None => vstd::pervasive::unreached(),
        }
    }

    fn assert_params(&mut self, rules: &[ParamRule], params: &[String]) -> (r: Result<
        (),
        CmdError,
    >) {
        crate::command::bind_params(&mut self.params, rules, params)
    }

    fn help(&self) -> (r: String) {
        let mut g = GUI::new();
        g.title("Manage Command");
        g.nl();
        g.sub_title("actions:");
        g.nl();
        g.content("create: {index} {key}             | create table called {index} and set {key}");
        g.content(
            "init:   {index} {key} {data}      | Create table called {index}, set {key} and populate with {data}",
        );
        g.content("delete: {index}                   | Delete index and data");
        g.content("purge:                            | Delete database");
        g.nl();
        g.take()
    }
}

} // verus!
