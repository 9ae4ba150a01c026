//! The entities of the service and the identifiers that name them.

use vstd::prelude::*;
use std::marker::PhantomData;

pub mod contract;
pub mod price;
pub mod time;
pub mod token;
pub mod wallet;

verus! {

/// An opaque identifier, tagged with the kind of entity that it names.
///
/// Two identifiers are the same when their raw strings are; the format of the
/// raw string is never checked.
#[derive(Debug, PartialEq, Eq, PartialOrd, Ord, Hash)]
pub struct Id<E> {
    id: String,
    _phantom: PhantomData<E>,
}

impl<E> View for Id<E> {
    type V = Seq<char>;

    closed spec fn view(&self) -> Seq<char> {
        self.id@
    }
}

impl<E> Clone for Id<E> {
    fn clone(&self) -> (copy: Self)
        ensures
            copy == *self,
    {
        Id { id: self.id.clone(), _phantom: PhantomData }
    }
}

impl<E> Id<E> {
    /// The identifier with the raw string `id`.
    pub fn new(id: String) -> (made: Self)
        ensures
            made@ == id@,
    {
        Id { id, _phantom: PhantomData }
    }

    /// A fresh identifier: a random UUID in its hyphenated form.
    pub fn generate() -> (made: Self)
        ensures
            is_hyphenated_uuid(made@),
    {
        Id { id: random_uuid(), _phantom: PhantomData }
    }

    /// The raw string.
    pub fn as_str(&self) -> (raw: &str)
        ensures
            raw@ == self@,
    {
        self.id.as_str()
    }

    /// A copy of the raw string.
    pub fn to_string(&self) -> (raw: String)
        ensures
            raw@ == self@,
    {
        self.id.clone()
    }

    /// Whether both identifiers have the same raw string.
    pub fn same(&self, other: &Self) -> (same: bool)
        ensures
            same == (self@ == other@),
    {
        self.id == other.id
    }
}

/// Whether the text has the hyphenated form of a UUID: 36 characters, hyphens
/// at the four places where the groups meet, and lower-case hexadecimal digits
/// everywhere else.
pub open spec fn is_hyphenated_uuid(text: Seq<char>) -> bool {
    &&& text.len() == 36
    &&& forall|i: int|
        0 <= i < 36 ==> if i == 8 || i == 13 || i == 18 || i == 23 {
            #[trigger] text[i] == '-'
        } else {
            ('0' <= text[i] <= '9') || ('a' <= text[i] <= 'f')
        }
}

/// Calls `uuid::Uuid::new_v4` and renders the result with its `to_string`,
/// which writes the lower-case hyphenated form. The identifier is random, so
/// of the text only its form is claimed.
#[verifier::external_body]
fn random_uuid() -> (text: String)
    ensures
        is_hyphenated_uuid(text@),
{
    uuid::Uuid::new_v4().to_string()
}

} // verus!
