//! Contracts: the on-ledger programs under which tokens are minted.

use vstd::prelude::*;
use vstd::string::StringExecFns;
use crate::domain::Id;
use crate::domain::time::LocalDateTime;
use crate::text::text_eq;
pub use crate::domain::wallet::WalletAddress;

verus! {

/// The token standard of a contract.
#[derive(PartialEq, Eq, Clone, Copy, Debug, Structural)]
pub enum Schema {
    ERC721,
    ERC1155,
}

impl Schema {
    /// The canonical name of the standard.
    pub open spec fn name(self) -> Seq<char> {
        match self {
            Schema::ERC721 => "ERC721"@,
            Schema::ERC1155 => "ERC1155"@,
        }
    }

    /// The standard with the given canonical name, if there is one.
    pub open spec fn named(text: Seq<char>) -> Option<Schema> {
        if text == "ERC721"@ {
            Some(Schema::ERC721)
        } else if text == "ERC1155"@ {
            Some(Schema::ERC1155)
        } else {
            None
        }
    }

    /// Renders the standard as its canonical name.
    pub fn to_string(&self) -> (text: String)
        ensures
            text@ == self.name(),
    {
        match self {
            Schema::ERC721 => String::from_str("ERC721"),
            Schema::ERC1155 => String::from_str("ERC1155"),
        }
    }

    /// Reads a standard from its canonical name; any other text is refused.
    pub fn from_str(text: &str) -> (schema: Option<Schema>)
        ensures
            schema == Schema::named(text@),
    {
        if text_eq(text, "ERC721") {
            Some(Schema::ERC721)
        } else if text_eq(text, "ERC1155") {
            Some(Schema::ERC1155)
        } else {
            None
        }
    }

    /// Every standard is read back from its own name.
    pub proof fn lemma_name_round_trip(self)
        ensures
            Schema::named(self.name()) == Some(self),
    {
        reveal_strlit("ERC721");
        reveal_strlit("ERC1155");
        assert("ERC721"@.len() != "ERC1155"@.len());
    }
}

/// The ledger on which a contract lives.
#[derive(PartialEq, Eq, Clone, Copy, Debug, Structural)]
pub enum Network {
    Avalanche,
}

impl Network {
    /// The canonical name of the ledger.
    pub open spec fn name(self) -> Seq<char> {
        "Avalanche"@
    }

    /// The ledger with the given canonical name, if there is one.
    pub open spec fn named(text: Seq<char>) -> Option<Network> {
        if text == "Avalanche"@ {
            Some(Network::Avalanche)
        } else {
            None
        }
    }

    /// Renders the ledger as its canonical name.
    pub fn to_string(&self) -> (text: String)
        ensures
            text@ == self.name(),
    {
        String::from_str("Avalanche")
    }

    /// Reads a ledger from its canonical name; any other text is refused.
    pub fn from_str(text: &str) -> (network: Option<Network>)
        ensures
            network == Network::named(text@),
    {
        if text_eq(text, "Avalanche") {
            Some(Network::Avalanche)
        } else {
            None
        }
    }

    /// Every ledger is read back from its own name.
    pub proof fn lemma_name_round_trip(self)
        ensures
            Network::named(self.name()) == Some(self),
    {
    }
}

/// Tags the identifiers that name contracts.
#[derive(Debug, Clone, Copy, PartialEq, Eq, PartialOrd, Ord, Hash)]
pub struct ContractTag;

/// The identifier of a contract: its address on the ledger.
pub type ContractId = Id<ContractTag>;

/// A contract, owned by one wallet. It is created once and never changed.
#[derive(Debug)]
pub struct Contract {
    pub address: ContractId,
    pub wallet_address: WalletAddress,
    pub schema: Schema,
    pub network: Network,
    pub abi: String,
    pub created_at: LocalDateTime,
}

/// What a contract holds, as mathematical values.
pub ghost struct ContractView {
    pub address: Seq<char>,
    pub wallet_address: Seq<char>,
    pub schema: Schema,
    pub network: Network,
    pub abi: Seq<char>,
    pub created_at: Seq<char>,
}

impl View for Contract {
    type V = ContractView;

    open spec fn view(&self) -> ContractView {
        ContractView {
            address: self.address@,
            wallet_address: self.wallet_address@,
            schema: self.schema,
            network: self.network,
            abi: self.abi@,
            created_at: self.created_at@,
        }
    }
}

impl Clone for Contract {
    fn clone(&self) -> (copy: Self)
        ensures
            copy == *self,
    {
        Contract {
            address: self.address.clone(),
            wallet_address: self.wallet_address.clone(),
            schema: self.schema,
            network: self.network,
            abi: self.abi.clone(),
            created_at: self.created_at.clone(),
        }
    }
}

impl Contract {
    /// Whether the contract's creation time is well formed.
    pub open spec fn wf(self) -> bool {
        self.created_at.wf()
    }

    /// A new ERC-721 contract on Avalanche, owned by `wallet_address`.
    pub fn new(
        address: ContractId,
        wallet_address: WalletAddress,
        abi: String,
        now: LocalDateTime,
    ) -> (contract: Self)
        ensures
            contract@ == (ContractView {
                address: address@,
                wallet_address: wallet_address@,
                schema: Schema::ERC721,
                network: Network::Avalanche,
                abi: abi@,
                created_at: now@,
            }),
            contract.created_at == now,
    {
        Contract {
            address,
            wallet_address,
            schema: Schema::ERC721,
            network: Network::Avalanche,
            abi,
            created_at: now,
        }
    }
}

} // verus!
