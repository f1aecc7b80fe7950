//! File names: extension, stem, hidden names.

use vstd::prelude::*;
use crate::text::chars_of;
use crate::text::string_of_range;

verus! {

/// The index of the last `.` among the first `upto` characters, or -1.
pub open spec fn last_dot(name: Seq<char>, upto: int) -> int
    decreases upto,
{
    if upto <= 0 || upto > name.len() {
        -1
    } else if name[upto - 1] == '.' {
        upto - 1
    } else {
        last_dot(name, upto - 1)
    }
}

/// Where a file name splits into stem and extension: at its last `.`,
/// unless the name has none, starts with its only one, or is `..`.
pub open spec fn split_point(name: Seq<char>) -> Option<int> {
    let dot = last_dot(name, name.len() as int);
    if dot <= 0 || name == ".."@ {
        None
    } else {
        Some(dot)
    }
}

/// The extension of a file name: what follows its last `.`, if the name
/// splits.
pub open spec fn extension(name: Seq<char>) -> Option<Seq<char>> {
    match split_point(name) {
        Some(dot) => Some(name.subrange(dot + 1, name.len() as int)),
        None => None,
    }
}

/// The stem of a file name: what precedes its last `.`, or the whole name
/// if it does not split.
pub open spec fn stem(name: Seq<char>) -> Seq<char> {
    match split_point(name) {
        Some(dot) => name.subrange(0, dot),
        None => name,
    }
}

/// Whether a file name is hidden: it starts with `.`.
pub open spec fn hidden(name: Seq<char>) -> bool {
    name.len() > 0 && name[0] == '.'
}

fn find_split(chars: &Vec<char>) -> (r: Option<usize>)
    ensures
        r is Some <==> split_point(chars@) is Some,
        r matches Some(dot) ==> split_point(chars@) == Some(dot as int) && 0 < dot < chars.len(),
{
    let n = chars.len();
    proof {
        reveal_strlit("..");
    }
    if n == 2 && chars[0] == '.' && chars[1] == '.' {
        assert(chars@ == ".."@);
        return None;
    }
    let mut i: usize = n;
    while i > 0
        invariant
            i <= n,
            n == chars.len(),
            chars@ != ".."@,
            last_dot(chars@, n as int) == last_dot(chars@, i as int),
        decreases i,
    {
        if chars[i - 1] == '.' {
            if i - 1 == 0 {
                return None;
            }
            return Some(i - 1);
        }
        i -= 1;
    }
    None
}

/// The extension of a file name, if it has one.
pub fn extension_of(name: &str) -> (r: Option<String>)
    ensures
        r is Some <==> extension(name@) is Some,
        r matches Some(ext) ==> Some(ext@) == extension(name@),
{
    let chars = chars_of(name);
    match find_split(&chars) {
        Some(dot) => Some(string_of_range(&chars, dot + 1, chars.len())),
        None => None,
    }
}

/// The stem of a file name.
pub fn stem_of(name: &str) -> (r: String)
    ensures
        r@ == stem(name@),
{
    let chars = chars_of(name);
    match find_split(&chars) {
        Some(dot) => string_of_range(&chars, 0, dot),
        None => {
            assert(chars@.subrange(0, chars@.len() as int) == chars@);
            string_of_range(&chars, 0, chars.len())
        },
    }
}

/// Whether a file name is hidden.
pub fn is_hidden(name: &str) -> (r: bool)
    ensures
        r == hidden(name@),
{
    let chars = chars_of(name);
    chars.len() > 0 && chars[0] == '.'
}

} // verus!
