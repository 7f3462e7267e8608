//! The project's ignore file: it is made to hold the line that keeps the
//! project's own key directory out of version control.

use vstd::prelude::*;
use vstd::string::*;
use crate::text::{chars_of, matches_at, owned, trim_bounds, trim_spec};

verus! {

/// Whether `content[a..b]` is a line: it holds no line feed, and line feeds
/// or the ends of the text stand around it.
pub open spec fn is_line(content: Seq<char>, a: int, b: int) -> bool {
    &&& 0 <= a <= b <= content.len()
    &&& (a == 0 || content[a - 1] == '\n')
    &&& (b == content.len() || content[b] == '\n')
    &&& forall|k: int| a <= k < b ==> content[k] != '\n'
}

/// Whether some line of the text is `entry`, white space around it set aside.
pub open spec fn has_entry_line(content: Seq<char>, entry: Seq<char>) -> bool {
    exists|a: int, b: int| #[trigger] is_line(content, a, b) && trim_spec(content.subrange(a, b)) == entry
}

/// The text with `entry` as a further line at its end; a last line that is
/// not ended is ended first.
pub open spec fn with_entry(content: Seq<char>, entry: Seq<char>) -> Seq<char> {
    (if content.len() > 0 && content.last() == '\n' {
        content
    } else {
        content.push('\n')
    }) + entry + seq!['\n']
}

/// Whether the line `chars[a..b]` is `entry`, white space around it set aside.
fn line_is(chars: &Vec<char>, a: usize, b: usize, entry: &Vec<char>) -> (same: bool)
    requires
        a <= b <= chars.len(),
    ensures
        same == (trim_spec(chars@.subrange(a as int, b as int)) == entry@),
{
    let bounds = trim_bounds(chars, a, b);
    if bounds.1 - bounds.0 != entry.len() {
        assert(chars@.subrange(bounds.0 as int, bounds.1 as int).len() != entry@.len());
        return false;
    }
    matches_at(chars, bounds.0, entry)
}

/// The new text of the ignore file, or none where it holds the line
/// `/.devenv` already and stays as it is.
pub fn ignore_update(content: &str) -> (updated: Option<String>)
    ensures
        match updated {
            None => has_entry_line(content@, "/.devenv"@),
            Some(text) => !has_entry_line(content@, "/.devenv"@) && text@ == with_entry(content@, "/.devenv"@),
        },
{
    let chars = chars_of(content);
    let entry = chars_of("/.devenv");
    let len: usize = chars.len();
    let mut a: usize = 0;
    let mut i: usize = 0;
    while i < len
        invariant
            a <= i <= len,
            len == chars.len(),
            chars@ == content@,
            entry@ == "/.devenv"@,
            a == 0 || chars@[a - 1] == '\n',
            forall|k: int| a <= k < i ==> chars@[k] != '\n',
            forall|x: int, y: int| #[trigger]
                is_line(chars@, x, y) && y < a ==> trim_spec(chars@.subrange(x, y)) != entry@,
        decreases len - i,
    {
        if chars[i] == '\n' {
            if line_is(&chars, a, i, &entry) {
                assert(is_line(chars@, a as int, i as int));
                return None;
            }
            proof {
                assert forall|x: int, y: int| #[trigger]
                    is_line(chars@, x, y) && y < i + 1 implies trim_spec(chars@.subrange(x, y)) != entry@ by {
                    if y >= a {
                        if y < i {
                            assert(chars@[y] == '\n');
                        }
                        if x < a {
                            assert(chars@[a - 1] == '\n');
                        }
                        if x > a {
                            assert(chars@[x - 1] == '\n');
                        }
                        assert(x == a && y == i);
                    }
                }
            }
            a = i + 1;
        }
        i = i + 1;
    }
    if line_is(&chars, a, len, &entry) {
        assert(is_line(chars@, a as int, len as int));
        return None;
    }
    proof {
        assert forall|x: int, y: int| #[trigger] is_line(chars@, x, y) implies trim_spec(chars@.subrange(x, y))
            != entry@ by {
            if y >= a {
                if y < len {
                    assert(chars@[y] == '\n');
                }
                if x < a {
                    assert(chars@[a - 1] == '\n');
                }
                if x > a {
                    assert(chars@[x - 1] == '\n');
                }
                assert(x == a && y == len);
            }
        }
    }
    let mut text = owned(content);
    if !(len > 0 && chars[len - 1] == '\n') {
        text.push('\n');
    }
    text.append("/.devenv");
    text.push('\n');
    proof {
        assert(text@ =~= with_entry(content@, "/.devenv"@));
    }
    Some(text)
}

} // verus!
