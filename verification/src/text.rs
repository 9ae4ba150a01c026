//! Small operations on text that the encodings of the crate are built from.

use vstd::prelude::*;
use vstd::string::{StrSliceExecFns, StringExecFns};

verus! {

/// Whether `text` begins with `prefix`.
pub open spec fn has_prefix(text: Seq<char>, prefix: Seq<char>) -> bool {
    prefix.len() <= text.len() && text.subrange(0, prefix.len() as int) == prefix
}

/// What follows the first `n` characters of `text`.
pub open spec fn after(text: Seq<char>, n: nat) -> Seq<char> {
    text.subrange(n as int, text.len() as int)
}

/// A text that begins with `prefix` is `prefix` followed by the rest.
pub proof fn lemma_prefix_split(text: Seq<char>, prefix: Seq<char>)
    requires
        has_prefix(text, prefix),
    ensures
        text == prefix + after(text, prefix.len()),
{
    assert(text =~= prefix + after(text, prefix.len()));
}

/// `prefix` followed by `rest` begins with `prefix`, and `rest` is what follows it.
pub proof fn lemma_prefix_of_concat(prefix: Seq<char>, rest: Seq<char>)
    ensures
        has_prefix(prefix + rest, prefix),
        after(prefix + rest, prefix.len()) == rest,
{
    assert((prefix + rest).subrange(0, prefix.len() as int) =~= prefix);
    assert(after(prefix + rest, prefix.len()) =~= rest);
}

/// Whether two texts hold the same characters.
pub fn text_eq(a: &str, b: &str) -> (same: bool)
    ensures
        same == (a@ == b@),
{
    let x = a.to_owned();
    let y = b.to_owned();
    x == y
}

/// `a` followed by `b`.
pub fn join(a: &str, b: &str) -> (text: String)
    ensures
        text@ == a@ + b@,
{
    String::from_str(a).concat(b)
}

/// `a`, then `b`, then `c`.
pub fn join3(a: &str, b: &str, c: &str) -> (text: String)
    ensures
        text@ == a@ + b@ + c@,
{
    String::from_str(a).concat(b).concat(c)
}

/// Removes `prefix` from the front of `text`, or reports that `text` does not
/// begin with it.
pub fn strip_prefix(text: &str, prefix: &str) -> (rest: Option<String>)
    ensures
        has_prefix(text@, prefix@) ==> rest.is_some() && rest.unwrap()@ == after(
            text@,
            prefix@.len(),
        ),
        !has_prefix(text@, prefix@) ==> rest.is_none(),
{
    let n = text.unicode_len();
    let p = prefix.unicode_len();
    if p > n {
        return None;
    }
    let head = text.substring_char(0, p);
    if text_eq(head, prefix) {
        Some(String::from_str(text.substring_char(p, n)))
    } else {
        None
    }
}

} // verus!
