//! The inputs of the mutations, and the choice between running an operation
//! within the request and queueing it as a task.

use vstd::prelude::*;
use crate::aws::sns::{MintPayload, Task, TransferPayload};
use crate::domain::contract::{Contract, ContractId, ContractView, Network, Schema, WalletAddress};
use crate::domain::time::LocalDateTime;

verus! {

/// Asks to register a contract.
#[derive(Debug)]
pub struct ContractCreateInput {
    pub address: String,
    pub abi: String,
}

/// Asks to mint a token.
#[derive(Debug)]
pub struct MintInput {
    pub work_id: String,
    pub gs_path: String,
    pub is_async: bool,
}

/// Asks to transfer a token.
#[derive(Debug)]
pub struct TransferInput {
    pub address: String,
    pub token_id: String,
    pub to_address: String,
    pub is_async: bool,
}

/// Where an operation runs.
#[derive(Debug)]
pub enum Route<I> {
    /// Within the request that asked for it.
    Now(I),
    /// Outside the request, as a queued task.
    Queued(Task),
}

impl ContractCreateInput {
    /// The contract that the input registers: an ERC-721 contract on
    /// Avalanche at the given address, owned by `wallet_address` and created
    /// at `now`.
    pub fn contract(self, wallet_address: WalletAddress, now: LocalDateTime) -> (contract: Contract)
        ensures
            contract@ == (ContractView {
                address: self.address@,
                wallet_address: wallet_address@,
                schema: Schema::ERC721,
                network: Network::Avalanche,
                abi: self.abi@,
                created_at: now@,
            }),
            contract.created_at == now,
    {
        Contract::new(ContractId::new(self.address), wallet_address, self.abi, now)
    }
}

impl MintInput {
    /// Decides where the mint runs: it is queued exactly when that is asked
    /// for, with the work and the source of the input.
    pub fn route(self) -> (route: Route<MintInput>)
        ensures
            self.is_async ==> route == Route::<MintInput>::Queued(
                Task::Mint(MintPayload { work_id: self.work_id, gs_path: self.gs_path }),
            ),
            !self.is_async ==> route == Route::Now(self),
    {
        if self.is_async {
            Route::Queued(Task::Mint(MintPayload { work_id: self.work_id, gs_path: self.gs_path }))
        } else {
            Route::Now(self)
        }
    }
}

impl TransferInput {
    /// Decides where the transfer runs: it is queued exactly when that is
    /// asked for, with the contract, the token and the receiver of the input.
    pub fn route(self) -> (route: Route<TransferInput>)
        ensures
            self.is_async ==> route == Route::<TransferInput>::Queued(
                Task::Transfer(
                    TransferPayload {
                        address: self.address,
                        token_id: self.token_id,
                        to_address: self.to_address,
                    },
                ),
            ),
            !self.is_async ==> route == Route::Now(self),
    {
        if self.is_async {
            Route::Queued(
                Task::Transfer(
                    TransferPayload {
                        address: self.address,
                        token_id: self.token_id,
                        to_address: self.to_address,
                    },
                ),
            )
        } else {
            Route::Now(self)
        }
    }
}

} // verus!
