//! Points in time, held in the form in which they are stored.

use vstd::prelude::*;
use vstd::string::StringExecFns;

verus! {

/// Whether `chrono::DateTime::parse_from_rfc3339` accepts the text.
pub uninterp spec fn rfc3339_accepted(text: Seq<char>) -> bool;

/// Calls `chrono::DateTime::parse_from_rfc3339` and hands out the text of its
/// error, or `None` where it succeeded. The parser reads nothing but its
/// argument, so its verdict is named as a function of the text.
#[verifier::external_body]
fn rfc3339_error(text: &str) -> (failure: Option<String>)
    ensures
        failure.is_none() == rfc3339_accepted(text@),
{
    chrono::DateTime::parse_from_rfc3339(text).err().map(|e| e.to_string())
}

/// A type that is read from RFC 3339 text.
pub trait ParseFromRfc3339<T> {
    /// Whether the text is accepted.
    spec fn accepts(s: Seq<char>) -> bool;

    /// Whether `value` is what the text `s` reads as.
    spec fn reads(value: T, s: Seq<char>) -> bool;

    /// Reads a value from RFC 3339 text, or tells why the text is refused.
    fn parse_from_rfc3339(s: &str) -> (res: Result<T, String>)
        ensures
            res.is_ok() == Self::accepts(s@),
            res matches Ok(value) ==> Self::reads(value, s@),
    ;
}

/// A date and time with its offset, held as RFC 3339 text.
///
/// The text is the stored form: it is written to a record as it is, and rows of
/// an index are ordered by it.
#[derive(Debug)]
pub struct LocalDateTime {
    text: String,
}

impl Clone for LocalDateTime {
    fn clone(&self) -> (copy: Self)
        ensures
            copy == *self,
    {
        LocalDateTime { text: self.text.clone() }
    }
}

impl View for LocalDateTime {
    type V = Seq<char>;

    closed spec fn view(&self) -> Seq<char> {
        self.text@
    }
}

impl LocalDateTime {
    /// Whether the value holds text that the RFC 3339 parser accepts.
    pub open spec fn wf(self) -> bool {
        rfc3339_accepted(self@)
    }

    /// Reads a date and time from RFC 3339 text, keeping the text as given.
    /// Returns `None` exactly when the parser refuses the text.
    pub fn parse(text: &str) -> (parsed: Option<Self>)
        ensures
            parsed.is_some() == rfc3339_accepted(text@),
            parsed matches Some(t) ==> t@ == text@ && t.wf(),
    {
        match rfc3339_error(text) {
            None => Some(LocalDateTime { text: String::from_str(text) }),
            Some(_) => None,
        }
    }

    /// The RFC 3339 text.
    pub fn to_rfc3339(&self) -> (text: String)
        ensures
            text@ == self@,
    {
        self.text.clone()
    }
}

impl ParseFromRfc3339<LocalDateTime> for LocalDateTime {
    open spec fn accepts(s: Seq<char>) -> bool {
        rfc3339_accepted(s)
    }

    open spec fn reads(value: LocalDateTime, s: Seq<char>) -> bool {
        value@ == s && value.wf()
    }

    fn parse_from_rfc3339(s: &str) -> (res: Result<LocalDateTime, String>) {
        match rfc3339_error(s) {
            None => Ok(LocalDateTime { text: String::from_str(s) }),
            Some(message) => Err(message),
        }
    }
}

} // verus!
