//! Paths as text, with `/` between their components.

use vstd::prelude::*;
use vstd::string::*;
use crate::text::{chars_of, owned, str_equal, string_of};

verus! {

/// A path without the slashes at its end.
pub open spec fn strip_slashes(p: Seq<char>) -> Seq<char>
    decreases p.len(),
{
    if p.len() > 0 && p.last() == '/' {
        strip_slashes(p.drop_last())
    } else {
        p
    }
}

/// What follows the last slash of a path, or all of it where it has none.
pub open spec fn last_component(p: Seq<char>) -> Seq<char>
    decreases p.len(),
{
    if p.len() == 0 || p.last() == '/' {
        Seq::empty()
    } else {
        last_component(p.drop_last()).push(p.last())
    }
}

/// The name of what a path leads to: its last component, slashes at the end
/// set aside. A path that is empty, or ends in `.` or `..`, has none.
pub open spec fn file_name_spec(p: Seq<char>) -> Option<Seq<char>> {
    let c = last_component(strip_slashes(p));
    if c.len() == 0 || c == "."@ || c == ".."@ {
        None
    } else {
        Some(c)
    }
}

/// The path of `name` below `base`.
pub open spec fn join_path_spec(base: Seq<char>, name: Seq<char>) -> Seq<char> {
    if base.len() == 0 {
        name
    } else if base.last() == '/' {
        base + name
    } else {
        base + "/"@ + name
    }
}

/// The name of what a path leads to.
pub fn file_name(path: &str) -> (name: Option<String>)
    ensures
        match file_name_spec(path@) {
            Some(c) => name matches Some(s) && s@ == c,
            None => name is None,
        },
{
    let chars = chars_of(path);
    let mut e: usize = chars.len();
    proof {
        assert(chars@.take(e as int) =~= chars@);
    }
    while e > 0 && chars[e - 1] == '/'
        invariant
            e <= chars.len(),
            strip_slashes(chars@) == strip_slashes(chars@.take(e as int)),
        decreases e,
    {
        proof {
            assert(chars@.take(e as int).drop_last() =~= chars@.take(e as int - 1));
        }
        e = e - 1;
    }
    assert(strip_slashes(chars@) == chars@.take(e as int));
    let mut b: usize = e;
    proof {
        assert(chars@.subrange(b as int, e as int) =~= Seq::<char>::empty());
        assert(last_component(chars@.take(b as int)) + Seq::<char>::empty() =~= last_component(
            chars@.take(b as int),
        ));
    }
    while b > 0 && chars[b - 1] != '/'
        invariant
            b <= e <= chars.len(),
            last_component(chars@.take(e as int)) == last_component(chars@.take(b as int)) + chars@.subrange(
                b as int,
                e as int,
            ),
        decreases b,
    {
        proof {
            assert(chars@.take(b as int).drop_last() =~= chars@.take(b as int - 1));
            assert(last_component(chars@.take(b as int - 1)).push(chars@[b as int - 1]) + chars@.subrange(
                b as int,
                e as int,
            ) =~= last_component(chars@.take(b as int - 1)) + chars@.subrange(b as int - 1, e as int));
        }
        b = b - 1;
    }
    proof {
        assert(last_component(chars@.take(b as int)) =~= Seq::<char>::empty());
        assert(Seq::<char>::empty() + chars@.subrange(b as int, e as int) =~= chars@.subrange(b as int, e as int));
    }
    let name = string_of(&chars, b, e);
    if b == e || str_equal(name.as_str(), ".") || str_equal(name.as_str(), "..") {
        None
    } else {
        Some(name)
    }
}

/// The path of `name` below `base`.
pub fn join_path(base: &str, name: &str) -> (joined: String)
    ensures
        joined@ == join_path_spec(base@, name@),
{
    let chars = chars_of(base);
    if chars.len() == 0 {
        return owned(name);
    }
    let mut joined = owned(base);
    if chars[chars.len() - 1] != '/' {
        joined.append("/");
    }
    joined.append(name);
    joined
}

} // verus!
