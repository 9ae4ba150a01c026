//! Key encoding: the partition and sort keys of the table carry the kind of the
//! entity that they name, so that rows of several kinds can share one table.

use vstd::prelude::*;
use vstd::string::StringExecFns;
use crate::ddb::record::{Attribute, AttributeValue, Record, Scalar};
use crate::domain::contract::ContractId;
use crate::domain::token::TokenId;
use crate::text::{after, has_prefix, join3, lemma_prefix_of_concat, strip_prefix, join};

verus! {

/// Why a stored key could not be read.
#[derive(Debug, Clone, Copy, PartialEq, Eq, Structural)]
pub enum KeyError {
    /// The key does not begin with the prefix of the expected kind.
    PrefixMismatch,
    /// The stored value is not a string.
    NotAString,
}

/// The prefix that marks the keys of a kind: its name and a number sign.
pub open spec fn key_prefix(typename: Seq<char>) -> Seq<char> {
    typename + "#"@
}

/// The stored form of the key `raw` of the kind `typename`.
pub open spec fn key_text(typename: Seq<char>, raw: Seq<char>) -> Seq<char> {
    key_prefix(typename) + raw
}

/// The raw key that the stored form `encoded` holds, if it is of the kind
/// `typename`.
pub open spec fn key_raw(typename: Seq<char>, encoded: Seq<char>) -> Option<Seq<char>> {
    if has_prefix(encoded, key_prefix(typename)) {
        Some(after(encoded, key_prefix(typename).len()))
    } else {
        None
    }
}

/// Reading the stored form of a key under its own kind gives the key back.
pub proof fn lemma_key_round_trip(typename: Seq<char>, raw: Seq<char>)
    ensures
        key_raw(typename, key_text(typename, raw)) == Some(raw),
{
    lemma_prefix_of_concat(key_prefix(typename), raw);
}

/// A stored key that reads under a kind is the stored form of what was read.
pub proof fn lemma_key_read_is_exact(typename: Seq<char>, encoded: Seq<char>)
    requires
        key_raw(typename, encoded).is_some(),
    ensures
        key_text(typename, key_raw(typename, encoded).unwrap()) == encoded,
{
    crate::text::lemma_prefix_split(encoded, key_prefix(typename));
}

/// The keys of contracts never read as keys of tokens, nor the other way
/// round, whatever the raw key is.
pub proof fn lemma_kinds_do_not_mix(raw: Seq<char>)
    ensures
        key_raw("token"@, key_text("contract"@, raw)).is_none(),
        key_raw("contract"@, key_text("token"@, raw)).is_none(),
{
    reveal_strlit("token");
    reveal_strlit("contract");
    reveal_strlit("#");
    let c = key_text("contract"@, raw);
    let t = key_text("token"@, raw);
    assert(c[0] == 'c');
    assert(t[0] == 't');
    assert(key_prefix("token"@)[0] == 't');
    assert(key_prefix("contract"@)[0] == 'c');
    if has_prefix(c, key_prefix("token"@)) {
        assert(c.subrange(0, key_prefix("token"@).len() as int)[0] == c[0]);
    }
    if has_prefix(t, key_prefix("contract"@)) {
        assert(t.subrange(0, key_prefix("contract"@).len() as int)[0] == t[0]);
    }
}

/// Writes the key `raw` of the kind `typename` in its stored form.
pub fn encode(typename: &str, raw: &str) -> (encoded: String)
    ensures
        encoded@ == key_text(typename@, raw@),
{
    join3(typename, "#", raw)
}

/// Reads a stored key of the kind `typename`: strips the prefix of the kind,
/// and refuses a key that does not begin with it.
pub fn decode(typename: &str, encoded: &str) -> (raw: Result<String, KeyError>)
    ensures
        match key_raw(typename@, encoded@) {
            Some(r) => raw.is_ok() && raw.unwrap()@ == r,
            None => raw == Err::<String, KeyError>(KeyError::PrefixMismatch),
        },
{
    let prefix = join(typename, "#");
    match strip_prefix(encoded, prefix.as_str()) {
        Some(rest) => Ok(rest),
        None => Err(KeyError::PrefixMismatch),
    }
}

/// An identifier that serves as a key of the table.
pub trait PrimaryKey: Sized {
    /// The name of the kind, as a mathematical value.
    spec fn kind() -> Seq<char>;

    /// The raw key, as a mathematical value.
    spec fn raw_view(&self) -> Seq<char>;

    /// The name of the kind.
    fn typename() -> (name: String)
        ensures
            name@ == Self::kind(),
    ;

    /// The raw key.
    fn raw(&self) -> (raw: String)
        ensures
            raw@ == self.raw_view(),
    ;

    /// The identifier with the raw key `from`.
    fn from(from: String) -> (key: Self)
        ensures
            key.raw_view() == from@,
    ;

    /// The key as a stored value: a string, in the stored form of the key.
    fn to_attribute_value(&self) -> (value: AttributeValue)
        ensures
            value@ == Scalar::S(key_text(Self::kind(), self.raw_view())),
    {
        let name = Self::typename();
        let raw = self.raw();
        AttributeValue::S(encode(name.as_str(), raw.as_str()))
    }

    /// Reads the identifier from the stored form of its key.
    fn try_from_attribute_string(v: String) -> (key: Result<Self, KeyError>)
        ensures
            match key_raw(Self::kind(), v@) {
                Some(r) => (key matches Ok(k) && k.raw_view() == r),
                None => key == Err::<Self, KeyError>(KeyError::PrefixMismatch),
            },
    {
        let name = Self::typename();
        match decode(name.as_str(), v.as_str()) {
            Ok(raw) => Ok(Self::from(raw)),
            Err(e) => Err(e),
        }
    }

    /// Reads the identifier from a stored value, which must be a string in
    /// the stored form of a key of this kind.
    fn try_from_attribute_value(av: &AttributeValue) -> (key: Result<Self, KeyError>)
        ensures
            match av@ {
                Scalar::S(s) => match key_raw(Self::kind(), s) {
                    Some(r) => (key matches Ok(k) && k.raw_view() == r),
                    None => key == Err::<Self, KeyError>(KeyError::PrefixMismatch),
                },
                _ => key == Err::<Self, KeyError>(KeyError::NotAString),
            },
    {
        match av {
            AttributeValue::S(s) => Self::try_from_attribute_string(s.clone()),
            _ => Err(KeyError::NotAString),
        }
    }

    /// The two key attributes of the row that the identifier names by itself:
    /// the partition key, and the sort key of a row that has no second
    /// identifier.
    fn key_tuples(&self) -> (keys: Vec<Attribute>)
        ensures
            keys@.len() == 2,
            keys@[0].name@ == "pk"@,
            keys@[0].value@ == Scalar::S(key_text(Self::kind(), self.raw_view())),
            keys@[1].name@ == "sk"@,
            keys@[1].value@ == Scalar::S("#"@),
    {
        let mut keys: Vec<Attribute> = Vec::new();
        keys.push(Attribute { name: String::from_str("pk"), value: self.to_attribute_value() });
        keys.push(
            Attribute {
                name: String::from_str("sk"),
                value: AttributeValue::S(String::from_str("#")),
            },
        );
        keys
    }

    /// The key attributes as a record.
    fn key_map(&self) -> (keys: Record)
        ensures
            keys@ == Map::<Seq<char>, Scalar>::empty().insert(
                "pk"@,
                Scalar::S(key_text(Self::kind(), self.raw_view())),
            ).insert("sk"@, Scalar::S("#"@)),
    {
        let mut keys = Record::new();
        keys.insert(String::from_str("pk"), self.to_attribute_value());
        keys.insert(String::from_str("sk"), AttributeValue::S(String::from_str("#")));
        keys
    }
}

impl PrimaryKey for ContractId {
    open spec fn kind() -> Seq<char> {
        "contract"@
    }

    open spec fn raw_view(&self) -> Seq<char> {
        self@
    }

    fn typename() -> (name: String) {
        String::from_str("contract")
    }

    fn raw(&self) -> (raw: String) {
        self.to_string()
    }

    fn from(from: String) -> (key: Self) {
        ContractId::new(from)
    }
}

impl PrimaryKey for TokenId {
    open spec fn kind() -> Seq<char> {
        "token"@
    }

    open spec fn raw_view(&self) -> Seq<char> {
        self@
    }

    fn typename() -> (name: String) {
        String::from_str("token")
    }

    fn raw(&self) -> (raw: String) {
        self.to_string()
    }

    fn from(from: String) -> (key: Self) {
        TokenId::new(from)
    }
}

} // verus!
