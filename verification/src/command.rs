//! The parameter binder: declarative rules for positional parameters, the
//! map they are bound into, and the shared handler traits.

use vstd::prelude::*;

verus! {

use vstd::string::StringExecFns;
use crate::outcome::{CmdError, Outcome};
use crate::store::Store;
use crate::tool::str_eq;
use crate::validation::{failure_of, satisfies, validate_string, StringValidation};

/// One expected positional parameter: its name, the check its value must
/// pass, and whether the command insists on it.
pub struct ParamRule<'a> {
    pub key: &'a str,
    pub validation: StringValidation,
    pub required: bool,
}

impl View for ParamRule<'_> {
    type V = (Seq<char>, StringValidation, bool);

    open spec fn view(&self) -> (Seq<char>, StringValidation, bool) {
        (self.key@, self.validation, self.required)
    }
}

/// The view of one rule: its name, its kind, and its required flag.
pub type RuleV = (Seq<char>, StringValidation, bool);

/// The views of a whole rule list.
pub open spec fn rules_v<'a>(rules: Seq<ParamRule<'a>>) -> Seq<RuleV> {
    rules.map_values(|r: ParamRule<'a>| r@)
}

/// The map described by an association list; a later entry for the same
/// name wins over an earlier one.
pub open spec fn map_of(s: Seq<(Seq<char>, Seq<char>)>) -> Map<Seq<char>, Seq<char>>
    decreases s.len(),
{
    if s.len() == 0 {
        Map::empty()
    } else {
        map_of(s.drop_last()).insert(s.last().0, s.last().1)
    }
}

/// A name that no entry carries is absent from the described map.
pub proof fn lemma_map_of_absent(s: Seq<(Seq<char>, Seq<char>)>, k: Seq<char>)
    requires
        forall|j: int| 0 <= j < s.len() ==> s[j].0 != k,
    ensures
        !map_of(s).contains_key(k),
    decreases s.len(),
{
    if s.len() > 0 {
        lemma_map_of_absent(s.drop_last(), k);
    }
}

/// Entries from position `i` on that never mention `k` do not change what
/// the described map says about `k`.
pub proof fn lemma_map_of_take_agree(s: Seq<(Seq<char>, Seq<char>)>, k: Seq<char>, i: int)
    requires
        0 <= i <= s.len(),
        forall|j: int| i <= j < s.len() ==> s[j].0 != k,
    ensures
        map_of(s).contains_key(k) == map_of(s.take(i)).contains_key(k),
        map_of(s).contains_key(k) ==> map_of(s)[k] == map_of(s.take(i))[k],
    decreases s.len() - i,
{
    if i == s.len() {
        assert(s.take(i) =~= s);
    } else {
        lemma_map_of_take_agree(s.drop_last(), k, i);
        assert(s.drop_last().take(i) =~= s.take(i));
    }
}

/// One bound parameter: a name and the validated value it carries.
struct Param {
    key: String,
    val: String,
}

/// The validated values of one command invocation, bound to their
/// parameter names. Viewed as a map from name to value.
pub struct ParamMap {
    items: Vec<Param>,
}

impl View for ParamMap {
    type V = Map<Seq<char>, Seq<char>>;

    open spec fn view(&self) -> Map<Seq<char>, Seq<char>> {
        map_of(self.entries())
    }
}

impl ParamMap {
    /// The bound pairs in the order they were inserted.
    pub closed spec fn entries(&self) -> Seq<(Seq<char>, Seq<char>)> {
        Seq::new(self.items@.len(), |i: int| (self.items@[i].key@, self.items@[i].val@))
    }

    /// An empty map.
    pub fn new() -> (r: ParamMap)
        ensures
            r.entries() == Seq::<(Seq<char>, Seq<char>)>::empty(),
            r@ == Map::<Seq<char>, Seq<char>>::empty(),
    {
        let r = ParamMap { items: Vec::new() };
        proof {
            assert(r.entries() =~= Seq::<(Seq<char>, Seq<char>)>::empty());
        }
        r
    }

    /// How many pairs are bound.
    pub fn len(&self) -> (r: usize)
        ensures
            r == self.entries().len(),
    {
        self.items.len()
    }

    /// The name at position `i`.
    pub fn key_at(&self, i: usize) -> (r: &String)
        requires
            i < self.entries().len(),
        ensures
            r@ == self.entries()[i as int].0,
    {
        &self.items[i].key
    }

    /// The value at position `i`.
    pub fn val_at(&self, i: usize) -> (r: &String)
        requires
            i < self.entries().len(),
        ensures
            r@ == self.entries()[i as int].1,
    {
        &self.items[i].val
    }

    /// Binds `key` to `val`; an earlier binding of the same name is
    /// superseded.
    pub fn insert(&mut self, key: String, val: String)
        ensures
            final(self).entries() == old(self).entries().push((key@, val@)),
            final(self)@ == old(self)@.insert(key@, val@),
    {
        self.items.push(Param { key, val });
        proof {
            assert(self.entries() =~= old(self).entries().push(
                (self.items@.last().key@, self.items@.last().val@),
            ));
            assert(self.entries().drop_last() =~= old(self).entries());
        }
    }

    /// Looks a name up; the latest binding for it, if there is one.
    pub fn get(&self, key: &str) -> (r: Option<&String>)
        ensures
            match r {
                Some(v) => self@.contains_key(key@) && v@ == self@[key@],
                None => !self@.contains_key(key@),
            },
    {
        let mut i: usize = self.items.len();
        while i > 0
            invariant
                i <= self.items@.len(),
                forall|j: int| i <= j < self.entries().len() ==> self.entries()[j].0 != key@,
            decreases i,
        {
            i = i - 1;
            if str_eq(self.items[i].key.as_str(), key) {
                proof {
                    lemma_map_of_take_agree(self.entries(), key@, i + 1);
                    assert(self.entries().take(i + 1).drop_last() =~= self.entries().take(
                        i as int,
                    ));
                }
                return Some(&self.items[i].val);
            }
        }
        proof {
            lemma_map_of_absent(self.entries(), key@);
        }
        None
    }
}

/// Position `i` is where binding stops: the argument there fails its
/// rule's check, or there is no argument and the rule insists on one.
pub open spec fn bind_fails_at(rv: Seq<RuleV>, av: Seq<Seq<char>>, i: int) -> bool {
    if i < av.len() {
        !satisfies(av[i], rv[i].1, rv[i].0)
    } else {
        rv[i].2
    }
}

/// The position at which binding stops, scanning from `i` on: the first
/// failing position, or the end of the rule list when every rule binds or
/// is skipped.
pub open spec fn bind_stop(rv: Seq<RuleV>, av: Seq<Seq<char>>, i: int) -> int
    decreases rv.len() - i,
{
    if i < 0 || i >= rv.len() {
        i
    } else if bind_fails_at(rv, av, i) {
        i
    } else {
        bind_stop(rv, av, i + 1)
    }
}

/// The map after the first `n` rules have been processed, starting from
/// `m0`: each rule whose argument exists and passes its check binds its
/// name; the others leave the map alone.
pub open spec fn bound_upto(
    m0: Map<Seq<char>, Seq<char>>,
    rv: Seq<RuleV>,
    av: Seq<Seq<char>>,
    n: int,
) -> Map<Seq<char>, Seq<char>>
    decreases n,
{
    if n <= 0 {
        m0
    } else {
        let prev = bound_upto(m0, rv, av, n - 1);
        if n - 1 < av.len() && satisfies(av[n - 1], rv[n - 1].1, rv[n - 1].0) {
            prev.insert(rv[n - 1].0, av[n - 1])
        } else {
            prev
        }
    }
}

/// When no position before `i` stops the binding, the stop computed from
/// the start is the stop computed from `i`.
pub proof fn lemma_bind_stop_from(rv: Seq<RuleV>, av: Seq<Seq<char>>, i: int)
    requires
        0 <= i <= rv.len(),
        forall|j: int| 0 <= j < i ==> !bind_fails_at(rv, av, j),
    ensures
        bind_stop(rv, av, 0) == bind_stop(rv, av, i),
    decreases i,
{
    if i > 0 {
        lemma_bind_stop_from(rv, av, i - 1);
        assert(bind_stop(rv, av, i - 1) == bind_stop(rv, av, i));
    }
}

/// Every rule bound or was skipped: nothing stopped the binding.
pub open spec fn bind_ok(rv: Seq<RuleV>, av: Seq<Seq<char>>) -> bool {
    bind_stop(rv, av, 0) == rv.len()
}

/// `e` is the error a stopped binding reports: the failing rule's name,
/// and either the validation failure its argument hit or the fact that a
/// required argument was missing.
pub open spec fn bind_error_ok(rv: Seq<RuleV>, av: Seq<Seq<char>>, e: CmdError) -> bool {
    let stop = bind_stop(rv, av, 0);
    stop < rv.len() && match e {
        CmdError::InvalidParam { param, reason } => stop < av.len() && param@ == rv[stop].0
            && reason == failure_of(rv[stop].1),
        CmdError::MissingParam { param } => av.len() <= stop && param@ == rv[stop].0 && rv[stop].2,
        _ => false,
    }
}

/// A failing position bounds the stop from above.
pub proof fn lemma_stop_le(rv: Seq<RuleV>, av: Seq<Seq<char>>, j: int, i: int)
    requires
        0 <= j <= i < rv.len(),
        bind_fails_at(rv, av, i),
    ensures
        bind_stop(rv, av, j) <= i,
    decreases i - j,
{
    if !bind_fails_at(rv, av, j) {
        lemma_stop_le(rv, av, j + 1, i);
    }
}

/// When the binding ran to the end, no position failed; in particular
/// every required rule found an argument that passed its check.
pub proof fn lemma_bind_ok_no_fail(rv: Seq<RuleV>, av: Seq<Seq<char>>)
    requires
        bind_ok(rv, av),
    ensures
        forall|i: int| 0 <= i < rv.len() ==> !bind_fails_at(rv, av, i),
{
    assert forall|i: int| 0 <= i < rv.len() implies !bind_fails_at(rv, av, i) by {
        if bind_fails_at(rv, av, i) {
            lemma_stop_le(rv, av, 0, i);
        }
    }
}

/// The parameter names the handlers use are pairwise distinct.
pub proof fn lemma_param_names_distinct()
    ensures
        "index"@ != "key"@,
        "index"@ != "data"@,
        "index"@ != "create"@,
        "key"@ != "data"@,
        "key"@ != "create"@,
        "data"@ != "create"@,
    {
    reveal_strlit("index");
    reveal_strlit("key");
    reveal_strlit("data");
    reveal_strlit("create");
    assert("index"@.len() == 5);
    assert("key"@.len() == 3);
    assert("data"@.len() == 4);
    assert("create"@.len() == 6);
}

/// Binds arguments to rules positionally: the `i`-th rule takes the
/// `i`-th argument. Validation failures and missing required arguments
/// stop the run; rules already bound stay bound, so a failed run leaves
/// the pairs committed so far in the map.
pub fn bind_params(map: &mut ParamMap, rules: &[ParamRule], params: &[String]) -> (r: Result<
    (),
    CmdError,
>)
    ensures
        ({
            let rv = rules_v(rules@);
            let av = params@.map_values(|s: String| s@);
            let stop = bind_stop(rv, av, 0);
            &&& final(map)@ == bound_upto(old(map)@, rv, av, stop)
            &&& match r {
                Ok(()) => stop == rv.len(),
                Err(CmdError::InvalidParam { param, reason }) => stop < rv.len() && stop < av.len()
                    && param@ == rv[stop].0 && reason == failure_of(rv[stop].1),
                Err(CmdError::MissingParam { param }) => stop < rv.len() && av.len() <= stop
                    && param@ == rv[stop].0 && rv[stop].2,
                _ => false,
            }
        }),
{
    let ghost rv = rules_v(rules@);
    let ghost av = params@.map_values(|s: String| s@);
    let mut i: usize = 0;
    while i < rules.len()
        invariant
            i <= rules.len(),
            rv == rules_v(rules@),
            av == params@.map_values(|s: String| s@),
            rv.len() == rules@.len(),
            av.len() == params@.len(),
            forall|j: int| 0 <= j < i ==> !bind_fails_at(rv, av, j),
            map@ == bound_upto(old(map)@, rv, av, i as int),
        decreases rules.len() - i,
    {
        let rule = &rules[i];
        if i < params.len() {
            let value = &params[i];
            match validate_string(value, rule) {
                Ok(()) => {
                    map.insert(String::from_str(rule.key), value.clone());
                },
                Err(reason) => {
                    proof {
                        lemma_bind_stop_from(rv, av, i as int);
                    }
                    return Err(
                        CmdError::InvalidParam { param: String::from_str(rule.key), reason },
                    );
                },
            }
        } else {
            if rule.required {
                proof {
                    lemma_bind_stop_from(rv, av, i as int);
                }
                return Err(CmdError::MissingParam { param: String::from_str(rule.key) });
            }
        }
        i += 1;
    }
    proof {
        lemma_bind_stop_from(rv, av, rv.len() as int);
    }
    Ok(())
}

/// A handler that can be run: the action word picks what it does, and
/// the raw arguments are bound to its parameters. Each implementation
/// states precisely what its run does to the store.
pub trait Runnable {
    fn run(&mut self, store: &mut Store, action: &String, params: &[String]) -> (r: Result<
        Outcome,
        CmdError,
    >);
}

/// The shared parameter plumbing of a handler: a place to keep the bound
/// parameter map, positional binding against a rule list, and access to
/// the bound values.
pub trait Command: Runnable {
    /// The bound pairs the handler currently holds.
    spec fn param_entries(&self) -> Seq<(Seq<char>, Seq<char>)>;

    fn set_params(&mut self, params: ParamMap)
        ensures
            final(self).param_entries() == params.entries(),
    ;

    fn get_params(&self) -> (r: &ParamMap)
        ensures
            r.entries() == self.param_entries(),
    ;

    /// The value bound to `key`; the handler must have bound it.
    fn get_param(&self, key: &str) -> (r: &String)
        requires
            map_of(self.param_entries()).contains_key(key@),
        ensures
            r@ == map_of(self.param_entries())[key@],
    ;

    /// Binds `params` against `rules` into the handler's map, as
    /// `bind_params` does.
    fn assert_params(&mut self, rules: &[ParamRule], params: &[String]) -> (r: Result<
        (),
        CmdError,
    >)
        ensures
            ({
                let rv = rules_v(rules@);
                let av = params@.map_values(|s: String| s@);
                let stop = bind_stop(rv, av, 0);
                &&& map_of(final(self).param_entries()) == bound_upto(
                    map_of(old(self).param_entries()),
                    rv,
                    av,
                    stop,
                )
                &&& match r {
                    Ok(()) => stop == rv.len(),
                    Err(e) => bind_error_ok(rv, av, e),
                }
            }),
    ;

    /// The handler's help text.
    fn help(&self) -> (r: String);
}

} // verus!
