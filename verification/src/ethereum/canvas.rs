//! The calls to a token contract on the ledger, as plain values: which method,
//! with which arguments, and with which gas.

use vstd::prelude::*;
use vstd::string::StringExecFns;
use crate::domain::contract::{Contract, WalletAddress};
use crate::domain::token::{Token, TokenId};
use crate::errors::{AppError, Kind};
use crate::ethereum::{
    GAS_LIMIT,
    GAS_PRICE,
    is_address,
    is_u256_decimal,
    parses_as_address,
    parses_as_u256,
};

verus! {

/// An argument of a call.
#[derive(Debug)]
pub enum Argument {
    /// An address, in its printed form.
    Address(String),
    /// An unsigned 256-bit integer, in decimal.
    Uint(String),
    /// A string.
    Text(String),
}

/// An argument of a call, as a mathematical value.
pub ghost enum ArgumentView {
    Address(Seq<char>),
    Uint(Seq<char>),
    Text(Seq<char>),
}

impl View for Argument {
    type V = ArgumentView;

    open spec fn view(&self) -> ArgumentView {
        match self {
            Argument::Address(a) => ArgumentView::Address(a@),
            Argument::Uint(n) => ArgumentView::Uint(n@),
            Argument::Text(t) => ArgumentView::Text(t@),
        }
    }
}

/// What a call gives back.
#[derive(Debug, Clone, Copy, PartialEq, Eq, Structural)]
pub enum ReturnKind {
    /// A string.
    Text,
    /// An address.
    Address,
    /// An unsigned 256-bit integer.
    Uint,
    /// The receipt of a transaction.
    Receipt,
}

/// A call to a method of a contract. A call that carries gas is sent as a
/// signed transaction and awaited until it is confirmed; one without is a
/// read.
#[derive(Debug)]
pub struct LedgerCall {
    pub address: String,
    pub abi: String,
    pub method: String,
    pub arguments: Vec<Argument>,
    pub kind: ReturnKind,
    pub gas: Option<i64>,
    pub gas_price: Option<i64>,
}

impl LedgerCall {
    /// The arguments of the call, as mathematical values.
    pub open spec fn arguments_view(self) -> Seq<ArgumentView> {
        self.arguments@.map_values(|a: Argument| a@)
    }

    /// Whether this is the read of `method` of `contract` with `arguments`,
    /// which gives back a value of the kind `kind`.
    pub open spec fn reads(
        self,
        contract: Contract,
        method: Seq<char>,
        arguments: Seq<ArgumentView>,
        kind: ReturnKind,
    ) -> bool {
        &&& self.address@ == contract.address@
        &&& self.abi@ == contract.abi@
        &&& self.method@ == method
        &&& self.arguments_view() == arguments
        &&& self.kind == kind
        &&& kind != ReturnKind::Receipt
        &&& self.gas.is_none()
        &&& self.gas_price.is_none()
    }

    /// Whether this is the transaction that calls `method` of `contract` with
    /// `arguments`, with the fixed gas limit and gas price.
    pub open spec fn transacts(self, contract: Contract, method: Seq<char>, arguments: Seq<ArgumentView>) -> bool {
        &&& self.address@ == contract.address@
        &&& self.abi@ == contract.abi@
        &&& self.method@ == method
        &&& self.arguments_view() == arguments
        &&& self.kind == ReturnKind::Receipt
        &&& self.gas == Some(GAS_LIMIT)
        &&& self.gas_price == Some(GAS_PRICE)
    }
}

/// Whether `contract` can be called: its address is an address of the ledger.
/// Whether its interface holds the method that is called is for the ledger to
/// say when the call is made.
pub open spec fn callable(contract: Contract) -> bool {
    is_address(contract.address@)
}

/// Whether a token can be minted under `contract`: the contract can be called
/// and its wallet, which receives the token, has an address of the ledger.
pub open spec fn mintable(contract: Contract) -> bool {
    is_address(contract.wallet_address@) && callable(contract)
}

/// Whether `token` of `contract` can be transferred to `to`: the token's id is
/// a number of the ledger, both wallets have addresses of the ledger, and the
/// contract can be called.
pub open spec fn transferable(contract: Contract, token: Token, to: WalletAddress) -> bool {
    &&& is_u256_decimal(token.token_id@)
    &&& is_address(contract.wallet_address@)
    &&& is_address(to@)
    &&& callable(contract)
}

/// The failure of a call that cannot be made.
fn refuse(message: &str) -> (res: Result<LedgerCall, AppError>)
    ensures
        res matches Err(e) && e.kind == Kind::Internal,
{
    Err(AppError::new(Kind::Internal, message))
}

/// The client of the token contracts.
#[derive(Debug, Clone, Copy)]
pub struct Canvas {}

impl Canvas {
    /// The client.
    pub fn new() -> Self {
        Canvas {  }
    }

    /// Builds a call to `contract`, once its address is checked. The call
    /// carries the interface of the contract as it is stored.
    fn call(
        contract: &Contract,
        method: &str,
        arguments: Vec<Argument>,
        kind: ReturnKind,
    ) -> (res: Result<LedgerCall, AppError>)
        ensures
            callable(*contract) ==> res.is_ok() && res.unwrap().address@ == contract.address@
                && res.unwrap().abi@ == contract.abi@ && res.unwrap().method@ == method@
                && res.unwrap().arguments == arguments && res.unwrap().kind == kind && (kind
                == ReturnKind::Receipt ==> res.unwrap().gas == Some(GAS_LIMIT)
                && res.unwrap().gas_price == Some(GAS_PRICE)) && (kind != ReturnKind::Receipt
                ==> res.unwrap().gas.is_none() && res.unwrap().gas_price.is_none()),
            !callable(*contract) ==> (res matches Err(e) && e.kind == Kind::Internal),
    {
        if !parses_as_address(contract.address.as_str()) {
            return refuse("the contract has no address of the ledger");
        }
        Ok(
            LedgerCall {
                address: contract.address.to_string(),
                abi: contract.abi.clone(),
                method: String::from_str(method),
                arguments,
                kind,
                gas: match kind {
                    ReturnKind::Receipt => Some(GAS_LIMIT),
                    _ => None,
                },
                gas_price: match kind {
                    ReturnKind::Receipt => Some(GAS_PRICE),
                    _ => None,
                },
            },
        )
    }

    /// The read of the name of `contract`.
    pub fn name(&self, contract: &Contract) -> (res: Result<LedgerCall, AppError>)
        ensures
            callable(*contract) ==> res.is_ok() && res.unwrap().reads(
                *contract,
                "name"@,
                Seq::empty(),
                ReturnKind::Text,
            ),
            !callable(*contract) ==> (res matches Err(e) && e.kind == Kind::Internal),
    {
        let res = Self::call(contract, "name", Vec::new(), ReturnKind::Text);
        proof {
            if res.is_ok() {
                assert(res.unwrap().arguments_view() =~= Seq::<ArgumentView>::empty());
            }
        }
        res
    }

    /// The read of the owner of the token `token_id` of `contract`.
    pub fn owner_of(&self, contract: &Contract, token_id: &TokenId) -> (res: Result<LedgerCall, AppError>)
        ensures
            is_u256_decimal(token_id@) && callable(*contract) ==> res.is_ok() && res.unwrap().reads(
                *contract,
                "ownerOf"@,
                seq![ArgumentView::Uint(token_id@)],
                ReturnKind::Address,
            ),
            !(is_u256_decimal(token_id@) && callable(*contract)) ==> (res matches Err(e) && e.kind
                == Kind::Internal),
    {
        if !parses_as_u256(token_id.as_str()) {
            return refuse("the token has no id of the ledger");
        }
        let mut arguments: Vec<Argument> = Vec::new();
        arguments.push(Argument::Uint(token_id.to_string()));
        let res = Self::call(contract, "ownerOf", arguments, ReturnKind::Address);
        proof {
            if res.is_ok() {
                assert(res.unwrap().arguments_view() =~= seq![ArgumentView::Uint(token_id@)]);
            }
        }
        res
    }

    /// The read of the id of the token of `contract` that was minted for the
    /// metadata with the hash `ipfs_hash`.
    pub fn token_id_of(&self, contract: &Contract, ipfs_hash: String) -> (res: Result<LedgerCall, AppError>)
        ensures
            callable(*contract) ==> res.is_ok() && res.unwrap().reads(
                *contract,
                "tokenIdOf"@,
                seq![ArgumentView::Text(ipfs_hash@)],
                ReturnKind::Uint,
            ),
            !callable(*contract) ==> (res matches Err(e) && e.kind == Kind::Internal),
    {
        let mut arguments: Vec<Argument> = Vec::new();
        arguments.push(Argument::Text(ipfs_hash));
        let res = Self::call(contract, "tokenIdOf", arguments, ReturnKind::Uint);
        proof {
            if res.is_ok() {
                assert(res.unwrap().arguments_view() =~= seq![ArgumentView::Text(ipfs_hash@)]);
            }
        }
        res
    }

    /// The transaction that mints, under `contract` and to its wallet, a token
    /// for the metadata with the hash `ipfs_hash`.
    pub fn mint(&self, contract: &Contract, ipfs_hash: String) -> (res: Result<LedgerCall, AppError>)
        ensures
            mintable(*contract) ==> res.is_ok() && res.unwrap().transacts(
                *contract,
                "mint"@,
                seq![
                    ArgumentView::Address(contract.wallet_address@),
                    ArgumentView::Text(ipfs_hash@),
                ],
            ),
            !mintable(*contract) ==> (res matches Err(e) && e.kind == Kind::Internal),
    {
        if !parses_as_address(contract.wallet_address.0.as_str()) {
            return refuse("the wallet has no address of the ledger");
        }
        let mut arguments: Vec<Argument> = Vec::new();
        arguments.push(Argument::Address(contract.wallet_address.to_string()));
        arguments.push(Argument::Text(ipfs_hash));
        let res = Self::call(contract, "mint", arguments, ReturnKind::Receipt);
        proof {
            if res.is_ok() {
                assert(res.unwrap().arguments_view() =~= seq![
                    ArgumentView::Address(contract.wallet_address@),
                    ArgumentView::Text(ipfs_hash@),
                ]);
            }
        }
        res
    }

    /// The transaction that transfers `token` of `contract` from the
    /// contract's wallet to `to`.
    pub fn transfer(&self, contract: &Contract, token: &Token, to: WalletAddress) -> (res: Result<
        LedgerCall,
        AppError,
    >)
        ensures
            transferable(*contract, *token, to) ==> res.is_ok() && res.unwrap().transacts(
                *contract,
                "safeTransferFrom"@,
                seq![
                    ArgumentView::Address(contract.wallet_address@),
                    ArgumentView::Address(to@),
                    ArgumentView::Uint(token.token_id@),
                ],
            ),
            !transferable(*contract, *token, to) ==> (res matches Err(e) && e.kind == Kind::Internal),
    {
        if !parses_as_u256(token.token_id.as_str()) {
            return refuse("the token has no id of the ledger");
        }
        if !parses_as_address(contract.wallet_address.0.as_str()) {
            return refuse("the wallet has no address of the ledger");
        }
        if !parses_as_address(to.0.as_str()) {
            return refuse("the receiver has no address of the ledger");
        }
        let mut arguments: Vec<Argument> = Vec::new();
        arguments.push(Argument::Address(contract.wallet_address.to_string()));
        arguments.push(Argument::Address(to.to_string()));
        arguments.push(Argument::Uint(token.token_id.to_string()));
        let res = Self::call(contract, "safeTransferFrom", arguments, ReturnKind::Receipt);
        proof {
            if res.is_ok() {
                assert(res.unwrap().arguments_view() =~= seq![
                    ArgumentView::Address(contract.wallet_address@),
                    ArgumentView::Address(to@),
                    ArgumentView::Uint(token.token_id@),
                ]);
            }
        }
        res
    }
}

} // verus!
