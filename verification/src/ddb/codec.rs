//! Reading the attributes of a record: which attribute is read, how, and what
//! is reported when the record does not hold what an entity needs.

use vstd::prelude::*;
use vstd::string::StringExecFns;
use crate::ddb::key::{decode, key_raw};
use crate::ddb::record::{AttributeValue, Record, Scalar};
use crate::domain::price::{Price, is_decimal};
use crate::domain::time::{LocalDateTime, ParseFromRfc3339, rfc3339_accepted};
use crate::errors::{AppError, Kind};
use crate::text::join3;

verus! {

/// The attributes that the records of contracts and tokens carry.
#[derive(Debug, Clone, Copy, PartialEq, Eq, Structural)]
pub enum Field {
    Pk,
    Sk,
    WalletAddress,
    Schema,
    Network,
    Abi,
    CreatedAt,
    Glk,
    WalletAddressSchema,
    WorkId,
    OwnerAddress,
    IpfsImageHash,
    Name,
    Description,
    PriceEth,
}

impl Field {
    /// The name of the attribute in a record.
    pub open spec fn name(self) -> Seq<char> {
        match self {
            Field::Pk => "pk"@,
            Field::Sk => "sk"@,
            Field::WalletAddress => "walletAddress"@,
            Field::Schema => "schema"@,
            Field::Network => "network"@,
            Field::Abi => "abi"@,
            Field::CreatedAt => "createdAt"@,
            Field::Glk => "glk"@,
            Field::WalletAddressSchema => "walletAddress_schema"@,
            Field::WorkId => "workId"@,
            Field::OwnerAddress => "ownerAddress"@,
            Field::IpfsImageHash => "ipfsImageHash"@,
            Field::Name => "name"@,
            Field::Description => "description"@,
            Field::PriceEth => "priceEth"@,
        }
    }

    /// The name of the attribute in a record.
    pub fn as_str(&self) -> (name: &'static str)
        ensures
            name@ == self.name(),
    {
        match self {
            Field::Pk => "pk",
            Field::Sk => "sk",
            Field::WalletAddress => "walletAddress",
            Field::Schema => "schema",
            Field::Network => "network",
            Field::Abi => "abi",
            Field::CreatedAt => "createdAt",
            Field::Glk => "glk",
            Field::WalletAddressSchema => "walletAddress_schema",
            Field::WorkId => "workId",
            Field::OwnerAddress => "ownerAddress",
            Field::IpfsImageHash => "ipfsImageHash",
            Field::Name => "name",
            Field::Description => "description",
            Field::PriceEth => "priceEth",
        }
    }

    /// The name of the attribute, as an owned string.
    pub fn to_string(&self) -> (name: String)
        ensures
            name@ == self.name(),
    {
        String::from_str(self.as_str())
    }

    /// No two attributes share a name.
    pub proof fn lemma_names_differ(a: Field, b: Field)
        requires
            a != b,
        ensures
            a.name() != b.name(),
    {
        reveal_strlit("pk");
        reveal_strlit("sk");
        reveal_strlit("walletAddress");
        reveal_strlit("schema");
        reveal_strlit("network");
        reveal_strlit("abi");
        reveal_strlit("createdAt");
        reveal_strlit("glk");
        reveal_strlit("walletAddress_schema");
        reveal_strlit("workId");
        reveal_strlit("ownerAddress");
        reveal_strlit("ipfsImageHash");
        reveal_strlit("name");
        reveal_strlit("description");
        reveal_strlit("priceEth");
        if a.name() == b.name() {
            assert(a.name().len() == b.name().len());
            assert(a.name()[0] == b.name()[0]);
            assert(a.name()[1] == b.name()[1]);
        }
    }

    /// The names of the attributes are pairwise different.
    pub proof fn lemma_names_distinct()
        ensures
            forall|a: Field, b: Field| a != b ==> #[trigger] a.name() != #[trigger] b.name(),
    {
        assert forall|a: Field, b: Field| a != b implies #[trigger] a.name() != #[trigger] b.name() by {
            Field::lemma_names_differ(a, b);
        }
    }
}

/// Why a record could not be read as an entity.
#[derive(Debug, Clone, Copy, PartialEq, Eq, Structural)]
pub enum DecodeError {
    /// A required attribute is absent.
    MissingField(Field),
    /// The attribute is present with the wrong kind of scalar.
    TypeMismatch(Field),
    /// The attribute names no variant of the enumeration that it stands for.
    InvalidEnum(Field),
    /// The attribute is a key of another kind.
    InvalidKey(Field),
    /// The attribute is of the right kind, but its text is not a date and time,
    /// or not a decimal number, where one is expected.
    InvalidValue(Field),
}

impl DecodeError {
    /// The attribute that the failure is about.
    pub open spec fn field(self) -> Field {
        match self {
            DecodeError::MissingField(f) => f,
            DecodeError::TypeMismatch(f) => f,
            DecodeError::InvalidEnum(f) => f,
            DecodeError::InvalidKey(f) => f,
            DecodeError::InvalidValue(f) => f,
        }
    }

    /// What went wrong, in words.
    pub open spec fn reason(self) -> Seq<char> {
        match self {
            DecodeError::MissingField(_) => "missing field"@,
            DecodeError::TypeMismatch(_) => "wrong type"@,
            DecodeError::InvalidEnum(_) => "parse error"@,
            DecodeError::InvalidKey(_) => "invalid format"@,
            DecodeError::InvalidValue(_) => "invalid value"@,
        }
    }

    /// The message of the failure: the attribute's name, a colon and the reason.
    pub open spec fn message(self) -> Seq<char> {
        self.field().name() + ": "@ + self.reason()
    }

    /// Renders the failure as its message.
    pub fn to_string(&self) -> (text: String)
        ensures
            text@ == self.message(),
    {
        let (field, reason): (Field, &'static str) = match self {
            DecodeError::MissingField(f) => (*f, "missing field"),
            DecodeError::TypeMismatch(f) => (*f, "wrong type"),
            DecodeError::InvalidEnum(f) => (*f, "parse error"),
            DecodeError::InvalidKey(f) => (*f, "invalid format"),
            DecodeError::InvalidValue(f) => (*f, "invalid value"),
        };
        join3(field.as_str(), ": ", reason)
    }

    /// Normalises the failure: every decode failure is an `Internal` failure
    /// that carries its message.
    pub fn into_app_error(self) -> (err: AppError)
        ensures
            err.kind == Kind::Internal,
            err.msg_view() == Some(self.message()),
    {
        AppError::from_message(self.to_string())
    }
}

/// A value that may be absent where one is required.
pub trait MustPresent<T>: Sized {
    /// The value, if it is there.
    spec fn held(self) -> Option<T>;

    /// The value, or the complaint that a field is missing.
    fn must_present(self) -> (res: Result<T, String>)
        ensures
            match self.held() {
                Some(v) => res == Ok::<T, String>(v),
                None => (res matches Err(msg) && msg@ == "missing field"@),
            },
    ;
}

impl<T> MustPresent<T> for Option<T> {
    open spec fn held(self) -> Option<T> {
        self
    }

    fn must_present(self) -> (res: Result<T, String>) {
        match self {
            Some(v) => Ok(v),
            None => Err(String::from_str("missing field")),
        }
    }
}

/// What it is to read a required string attribute.
pub open spec fn string_at(rec: Map<Seq<char>, Scalar>, field: Field) -> Result<
    Seq<char>,
    DecodeError,
> {
    if !rec.contains_key(field.name()) {
        Err(DecodeError::MissingField(field))
    } else {
        match rec[field.name()] {
            Scalar::S(s) => Ok(s),
            _ => Err(DecodeError::TypeMismatch(field)),
        }
    }
}

/// What it is to read a required key of the kind `kind`.
pub open spec fn key_at(rec: Map<Seq<char>, Scalar>, field: Field, kind: Seq<char>) -> Result<
    Seq<char>,
    DecodeError,
> {
    match string_at(rec, field) {
        Err(e) => Err(e),
        Ok(s) => match key_raw(kind, s) {
            Some(raw) => Ok(raw),
            None => Err(DecodeError::InvalidKey(field)),
        },
    }
}

/// What it is to read a required date and time.
pub open spec fn time_at(rec: Map<Seq<char>, Scalar>, field: Field) -> Result<
    Seq<char>,
    DecodeError,
> {
    match string_at(rec, field) {
        Err(e) => Err(e),
        Ok(s) => if rfc3339_accepted(s) {
            Ok(s)
        } else {
            Err(DecodeError::InvalidValue(field))
        },
    }
}

/// What it is to read an optional price: an absent attribute is no price.
pub open spec fn price_at(rec: Map<Seq<char>, Scalar>, field: Field) -> Result<
    Option<Seq<char>>,
    DecodeError,
> {
    if !rec.contains_key(field.name()) {
        Ok(None)
    } else {
        match rec[field.name()] {
            Scalar::N(n) => if is_decimal(n) {
                Ok(Some(n))
            } else {
                Err(DecodeError::InvalidValue(field))
            },
            _ => Err(DecodeError::TypeMismatch(field)),
        }
    }
}

/// Reads a required string attribute.
pub fn read_string(rec: &Record, field: Field) -> (res: Result<String, DecodeError>)
    ensures
        match string_at(rec@, field) {
            Ok(s) => res.is_ok() && res.unwrap()@ == s,
            Err(e) => res.is_err() && res.unwrap_err() == e,
        },
{
    match rec.get(field.as_str()).must_present() {
        Err(_) => Err(DecodeError::MissingField(field)),
        Ok(value) => match value {
            AttributeValue::S(s) => Ok(s.clone()),
            _ => Err(DecodeError::TypeMismatch(field)),
        },
    }
}

/// Reads a required key of the kind `kind` and strips the prefix of the kind.
pub fn read_key(rec: &Record, field: Field, kind: &str) -> (res: Result<String, DecodeError>)
    ensures
        match key_at(rec@, field, kind@) {
            Ok(s) => res.is_ok() && res.unwrap()@ == s,
            Err(e) => res.is_err() && res.unwrap_err() == e,
        },
{
    match read_string(rec, field) {
        Err(e) => Err(e),
        Ok(s) => match decode(kind, s.as_str()) {
            Ok(raw) => Ok(raw),
            Err(_) => Err(DecodeError::InvalidKey(field)),
        },
    }
}

/// Reads a required date and time.
pub fn read_time(rec: &Record, field: Field) -> (res: Result<LocalDateTime, DecodeError>)
    ensures
        match time_at(rec@, field) {
            Ok(s) => res.is_ok() && res.unwrap()@ == s && res.unwrap().wf(),
            Err(e) => res.is_err() && res.unwrap_err() == e,
        },
{
    match read_string(rec, field) {
        Err(e) => Err(e),
        Ok(s) => match LocalDateTime::parse_from_rfc3339(s.as_str()) {
            Ok(t) => Ok(t),
            Err(_) => Err(DecodeError::InvalidValue(field)),
        },
    }
}

/// Reads an optional price: an absent attribute is no price.
pub fn read_price(rec: &Record, field: Field) -> (res: Result<Option<Price>, DecodeError>)
    ensures
        match price_at(rec@, field) {
            Ok(Some(n)) => res.is_ok() && res.unwrap().is_some() && res.unwrap().unwrap()@ == n
                && res.unwrap().unwrap().wf(),
            Ok(None) => res.is_ok() && res.unwrap().is_none(),
            Err(e) => res.is_err() && res.unwrap_err() == e,
        },
{
    match rec.get(field.as_str()) {
        None => Ok(None),
        Some(value) => match value {
            AttributeValue::N(n) => match Price::parse(n.as_str()) {
                Some(p) => Ok(Some(p)),
                None => Err(DecodeError::InvalidValue(field)),
            },
            _ => Err(DecodeError::TypeMismatch(field)),
        },
    }
}

} // verus!
