//! Small helpers on strings, stated over their sequences of characters.

use vstd::prelude::*;
use vstd::string::StringExecFns;
use vstd::string::StrSliceExecFns;

verus! {

/// Whether two strings hold the same characters.
pub fn same_text(a: &str, b: &str) -> (same: bool)
    ensures
        same == (a@ == b@),
{
    let x = a.to_owned();
    let y = b.to_owned();
    x == y
}

/// Whether `text` begins with `prefix`.
pub open spec fn has_prefix(text: Seq<char>, prefix: Seq<char>) -> bool {
    prefix.len() <= text.len() && text.subrange(0, prefix.len() as int) == prefix
}

/// Whether `text` begins with `prefix`.
pub fn starts_with(text: &str, prefix: &str) -> (yes: bool)
    ensures
        yes == has_prefix(text@, prefix@),
{
    let n = text.unicode_len();
    let p = prefix.unicode_len();
    if p > n {
        return false;
    }
    let head = text.substring_char(0, p);
    same_text(head, prefix)
}

/// What follows the first `skip` characters of `text`; nothing where the
/// text is no longer than that.
pub open spec fn text_after(text: Seq<char>, skip: int) -> Seq<char> {
    if 0 <= skip <= text.len() {
        text.subrange(skip, text.len() as int)
    } else {
        Seq::empty()
    }
}

/// What follows the first `skip` characters of `text`.
pub fn after_prefix(text: &str, skip: usize) -> (rest: String)
    ensures
        rest@ == text_after(text@, skip as int),
{
    let n = text.unicode_len();
    if skip > n {
        return String::new();
    }
    text.substring_char(skip, n).to_owned()
}

/// The two strings, one after the other.
pub fn join(a: &str, b: &str) -> (joined: String)
    ensures
        joined@ == a@ + b@,
{
    let mut out = a.to_owned();
    out.append(b);
    out
}

/// The characters of an optional string.
pub open spec fn option_text(value: Option<String>) -> Option<Seq<char>> {
    match value {
        Some(s) => Some(s@),
        None => None,
    }
}

/// A copy of an optional string.
pub fn copy_option(value: &Option<String>) -> (copy: Option<String>)
    ensures
        option_text(copy) == option_text(*value),
{
    match value {
        Some(text) => Some(text.clone()),
        None => None,
    }
}

} // verus!
