//! Reading options off an operator tool's command line. The tools take
//! their settings from arguments (or the environment) rather than from a
//! server's configuration.

use vstd::prelude::*;
use vstd::string::*;
use crate::text::{chars_eq, chars_of, string_from_chars, string_views, sub_chars};

verus! {

/// The first position at which `flag` appears.
pub open spec fn first_position(args: Seq<Seq<char>>, flag: Seq<char>) -> Option<int>
    decreases args.len(),
{
    if args.len() == 0 {
        None
    } else if args.last() == flag {
        match first_position(args.drop_last(), flag) {
            Some(i) => Some(i),
            None => Some(args.len() - 1),
        }
    } else {
        first_position(args.drop_last(), flag)
    }
}

/// The argument after the first `flag`, if there is one.
pub open spec fn flag_value_spec(args: Seq<Seq<char>>, flag: Seq<char>) -> Option<Seq<char>> {
    match first_position(args, flag) {
        Some(i) => if i + 1 < args.len() {
            Some(args[i + 1])
        } else {
            None
        },
        None => None,
    }
}

/// Whether two strings are equal.
fn same_text(a: &str, b: &[char]) -> (r: bool)
    ensures
        r == (a@ == b@),
{
    let c = chars_of(a);
    chars_eq(c.as_slice(), b)
}

/// The value given after `flag` (`--sqlite <path>`): the argument that
/// follows the first occurrence of the flag.
pub fn flag_value(args: &[String], flag: &str) -> (r: Option<String>)
    ensures
        match r {
            Some(v) => flag_value_spec(string_views(args@), flag@) == Some(v@),
            None => flag_value_spec(string_views(args@), flag@) is None,
        },
{
    let ghost vs = string_views(args@);
    let f = chars_of(flag);
    let mut i: usize = 0;
    while i < args.len()
        invariant
            i <= args@.len(),
            vs == string_views(args@),
            f@ == flag@,
            first_position(vs.subrange(0, i as int), flag@) is None,
        decreases args@.len() - i,
    {
        proof {
            assert(vs.subrange(0, i as int + 1).drop_last() =~= vs.subrange(0, i as int));
        }
        if same_text(args[i].as_str(), f.as_slice()) {
            proof {
                lemma_first_position_prefix(vs, flag@, i as int);
            }
            if i + 1 < args.len() {
                return Some(args[i + 1].clone());
            }
            return None;
        }
        i = i + 1;
    }
    assert(vs.subrange(0, args@.len() as int) =~= vs);
    None
}

/// A first occurrence in a prefix is the first occurrence overall.
proof fn lemma_first_position_prefix(args: Seq<Seq<char>>, flag: Seq<char>, i: int)
    requires
        0 <= i < args.len(),
        args[i] == flag,
        first_position(args.subrange(0, i), flag) is None,
    ensures
        first_position(args, flag) == Some(i),
    decreases args.len() - i,
{
    if i == args.len() - 1 {
        assert(args.drop_last() =~= args.subrange(0, i));
    } else {
        let shorter = args.drop_last();
        assert(shorter.subrange(0, i) =~= args.subrange(0, i));
        lemma_first_position_prefix(shorter, flag, i);
    }
}

/// The value of option `name`, given either as `name value` or as
/// `name=value`: the first argument that is the name (the next argument
/// is the value, if any) or starts with the name and `=`.
pub open spec fn option_value_spec(args: Seq<Seq<char>>, name: Seq<char>) -> Option<Seq<char>>
    decreases args.len(),
{
    if args.len() == 0 {
        None
    } else if args[0] == name {
        if args.len() > 1 {
            Some(args[1])
        } else {
            None
        }
    } else if args[0].len() >= name.len() + 1 && args[0].subrange(0, name.len() + 1int) == name + "="@ {
        Some(args[0].subrange(name.len() + 1int, args[0].len() as int))
    } else {
        option_value_spec(args.drop_first(), name)
    }
}

/// Read option `name` from the arguments (the program's name left out).
pub fn option_value(args: &[String], name: &str) -> (r: Option<String>)
    ensures
        match r {
            Some(v) => option_value_spec(string_views(args@), name@) == Some(v@),
            None => option_value_spec(string_views(args@), name@) is None,
        },
{
    let ghost vs = string_views(args@);
    let n = chars_of(name);
    let mut prefix = chars_of(name);
    prefix.push('=');
    let ghost p = name@ + "="@;
    proof {
        reveal_strlit("=");
    }
    assert(prefix@ =~= p);
    let mut i: usize = 0;
    assert(vs.subrange(0, vs.len() as int) =~= vs);
    while i < args.len()
        invariant
            i <= args@.len(),
            vs == string_views(args@),
            n@ == name@,
            prefix@ == name@ + "="@,
            prefix@.len() == name@.len() + 1,
            option_value_spec(vs, name@) == option_value_spec(vs.subrange(i as int, vs.len() as int), name@),
        decreases args@.len() - i,
    {
        let ghost rest = vs.subrange(i as int, vs.len() as int);
        assert(rest[0] == args@[i as int]@);
        assert(rest.drop_first() =~= vs.subrange(i + 1, vs.len() as int));
        let a = chars_of(args[i].as_str());
        if chars_eq(a.as_slice(), n.as_slice()) {
            if i + 1 < args.len() {
                assert(rest[1] == args@[i + 1]@);
                return Some(args[i + 1].clone());
            }
            return None;
        }
        if a.len() >= prefix.len() {
            let head = sub_chars(a.as_slice(), 0, prefix.len());
            if chars_eq(head.as_slice(), prefix.as_slice()) {
                let tail = sub_chars(a.as_slice(), prefix.len(), a.len());
                assert(a@ == rest[0]);
                assert(prefix@.len() == name@.len() + 1);
                assert(rest[0] != name@);
                assert(rest[0].subrange(0, name@.len() + 1int) =~= name@ + "="@);
                return Some(string_from_chars(tail.as_slice()));
            }
        }
        i = i + 1;
    }
    None
}

/// Whether `name` is among the arguments.
pub fn has_flag(args: &[String], name: &str) -> (r: bool)
    ensures
        r == string_views(args@).contains(name@),
{
    let ghost vs = string_views(args@);
    let n = chars_of(name);
    let mut i: usize = 0;
    while i < args.len()
        invariant
            i <= args@.len(),
            vs == string_views(args@),
            n@ == name@,
            forall|k: int| 0 <= k < i ==> vs[k] != name@,
        decreases args@.len() - i,
    {
        if same_text(args[i].as_str(), n.as_slice()) {
            assert(vs[i as int] == name@);
            return true;
        }
        i = i + 1;
    }
    proof {
        if vs.contains(name@) {
            let k = choose|k: int| 0 <= k < vs.len() && vs[k] == name@;
            assert(vs[k] != name@);
        }
    }
    false
}

} // verus!
