//! Small string helpers shared by the validation rules, the router and the
//! parameter binder.

use vstd::prelude::*;

verus! {

use vstd::string::StrSliceExecFns;
use crate::command::ParamMap;

/// Exact equality of two string slices, stated over their views.
pub fn str_eq(a: &str, b: &str) -> (r: bool)
    ensures
        r == (a@ == b@),
{
    let x = a.to_owned();
    let y = b.to_owned();
    x == y
}

/// The code of `c` with an ASCII upper-case letter folded to lower case;
/// every other character keeps its own code.
pub open spec fn lower_code(c: char) -> int {
    if 65 <= c as int && c as int <= 90 {
        c as int + 32
    } else {
        c as int
    }
}

/// Equality up to ASCII case: the two sequences have the same length and
/// agree character by character once upper-case letters are folded.
pub open spec fn ci_equal(a: Seq<char>, b: Seq<char>) -> bool {
    a.len() == b.len() && (forall|i: int| 0 <= i < a.len() ==> lower_code(a[i]) == lower_code(b[i]))
}

/// Case-insensitive equality of two string slices (ASCII folding only).
pub fn str_eq_ci(a: &str, b: &str) -> (r: bool)
    ensures
        r == ci_equal(a@, b@),
{
    let na = a.unicode_len();
    let nb = b.unicode_len();
    if na != nb {
        return false;
    }
    let mut i: usize = 0;
    while i < na
        invariant
            i <= na,
            na == a@.len(),
            na == b@.len(),
            forall|j: int| 0 <= j < i ==> lower_code(a@[j]) == lower_code(b@[j]),
        decreases na - i,
    {
        let ca = a.get_char(i);
        let cb = b.get_char(i);
        let ua: u32 = ca as u32;
        let ub: u32 = cb as u32;
        let fa: u32 = if 65 <= ua && ua <= 90 { ua + 32 } else { ua };
        let fb: u32 = if 65 <= ub && ub <= 90 { ub + 32 } else { ub };
        if fa != fb {
            return false;
        }
        i += 1;
    }
    true
}

/// Pairs each key name with the argument that stands two places after
/// the command word, in order: the layout `<command> <action>
/// <positional-params...>` puts the first bound argument at position 2.
pub fn assert_args(keys: &Vec<String>, args: &Vec<String>) -> (r: ParamMap)
    requires
        args@.len() >= keys@.len() + 2,
    ensures
        r.entries() == Seq::new(keys@.len(), |i: int| (keys@[i]@, args@[i + 2]@)),
{
    let mut map = ParamMap::new();
    let alen = args.len();
    let mut i: usize = 0;
    while i < keys.len()
        invariant
            i <= keys@.len(),
            alen == args@.len(),
            args@.len() >= keys@.len() + 2,
            map.entries() == Seq::new(i as nat, |j: int| (keys@[j]@, args@[j + 2]@)),
        decreases keys@.len() - i,
    {
        map.insert(keys[i].clone(), args[i + 2].clone());
        proof {
            assert(map.entries() =~= Seq::new(
                i as nat + 1,
                |j: int| (keys@[j]@, args@[j + 2]@),
            ));
        }
        i += 1;
    }
    proof {
        assert(map.entries() =~= Seq::new(keys@.len(), |i: int| (keys@[i]@, args@[i + 2]@)));
    }
    map
}

} // verus!
