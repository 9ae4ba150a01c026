//! The entities as the request surface shows them.

use vstd::prelude::*;
use crate::domain;
use crate::domain::time::{LocalDateTime, ParseFromRfc3339, rfc3339_accepted};
use crate::domain::wallet::WalletAddress;
use crate::text::join3;

verus! {

/// The token standard of a contract, as shown to callers.
#[derive(Copy, Clone, Eq, PartialEq, Debug, Structural)]
pub enum Schema {
    ERC721,
    ERC1155,
}

/// The ledger of a contract, as shown to callers.
#[derive(Copy, Clone, Eq, PartialEq, Debug, Structural)]
pub enum Network {
    Avalanche,
}

impl Schema {
    /// The standard of the service that this one shows.
    pub open spec fn domain(self) -> domain::contract::Schema {
        match self {
            Schema::ERC721 => domain::contract::Schema::ERC721,
            Schema::ERC1155 => domain::contract::Schema::ERC1155,
        }
    }

    /// Shows a standard of the service.
    pub fn from(v: domain::contract::Schema) -> (shown: Self)
        ensures
            shown.domain() == v,
    {
        match v {
            domain::contract::Schema::ERC721 => Schema::ERC721,
            domain::contract::Schema::ERC1155 => Schema::ERC1155,
        }
    }

    /// The standard of the service that this one shows.
    pub fn into(self) -> (v: domain::contract::Schema)
        ensures
            v == self.domain(),
    {
        match self {
            Schema::ERC721 => domain::contract::Schema::ERC721,
            Schema::ERC1155 => domain::contract::Schema::ERC1155,
        }
    }
}

impl Network {
    /// The ledger of the service that this one shows.
    pub open spec fn domain(self) -> domain::contract::Network {
        match self {
            Network::Avalanche => domain::contract::Network::Avalanche,
        }
    }

    /// Shows a ledger of the service.
    pub fn from(v: domain::contract::Network) -> (shown: Self)
        ensures
            shown.domain() == v,
    {
        match v {
            domain::contract::Network::Avalanche => Network::Avalanche,
        }
    }

    /// The ledger of the service that this one shows.
    pub fn into(self) -> (v: domain::contract::Network)
        ensures
            v == self.domain(),
    {
        match self {
            Network::Avalanche => domain::contract::Network::Avalanche,
        }
    }
}

/// Showing is one to one: two shown standards that show the same standard of
/// the service are the same.
pub proof fn lemma_schema_shown_one_to_one(a: Schema, b: Schema)
    requires
        a.domain() == b.domain(),
    ensures
        a == b,
{
}

/// A date and time, as shown to callers: its RFC 3339 text.
#[derive(Clone, Debug)]
pub struct DateTime(pub LocalDateTime);

impl DateTime {
    /// Reads a date and time from the text that a caller gave, and tells why
    /// a text is refused.
    pub fn parse(value: &str) -> (res: Result<DateTime, String>)
        ensures
            res.is_ok() == rfc3339_accepted(value@),
            res matches Ok(t) ==> t.0@ == value@ && t.0.wf(),
    {
        match LocalDateTime::parse_from_rfc3339(value) {
            Ok(t) => Ok(DateTime(t)),
            Err(message) => Err(message),
        }
    }

    /// The text that is shown.
    pub fn to_value(&self) -> (text: String)
        ensures
            text@ == self.0@,
    {
        self.0.to_rfc3339()
    }
}

/// A token, as shown to callers.
#[derive(Debug)]
pub struct Token {
    pub token: domain::token::Token,
}

impl Token {
    /// The id under which the token is shown: the address of its contract, a
    /// number sign and its id within the contract.
    pub fn id(&self) -> (id: String)
        ensures
            id@ == self.token.address@ + "#"@ + self.token.token_id@,
    {
        join3(self.token.address.as_str(), "#", self.token.token_id.as_str())
    }

    /// The location of the token's image behind the gateway `gateway`.
    pub fn image_url(&self, gateway: &str) -> (url: String)
        ensures
            url@ == gateway@ + "/ipfs/"@ + self.token.ipfs_image_hash@,
    {
        join3(gateway, "/ipfs/", self.token.ipfs_image_hash.as_str())
    }

    /// Whether the wallet `wallet` holds the token.
    pub fn is_owner(&self, wallet: &WalletAddress) -> (yes: bool)
        ensures
            yes == (self.token.owner_address@ == wallet@),
    {
        self.token.owner_address.same(wallet)
    }
}

} // verus!
