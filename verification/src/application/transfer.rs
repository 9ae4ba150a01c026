//! Transferring: handing a token of the service's wallet to another wallet.

use vstd::prelude::*;
use crate::application::nft::{
    Action,
    Event,
    NftApp,
    Step,
    fail_from,
    fail_unexpected,
    failure_of,
    may_dispose,
};
use crate::domain::contract::{Contract, ContractId, WalletAddress};
use crate::domain::token::{Token, TokenId, TokenView};
use crate::errors::Kind;
use crate::ethereum::canvas::{ArgumentView, transferable};

verus! {

/// Where a transfer stands.
#[derive(Debug)]
pub enum TransferState {
    /// The contract is being loaded.
    LoadingContract { address: ContractId, token_id: TokenId, to: WalletAddress },
    /// The token is being loaded.
    LoadingToken { contract: Contract, to: WalletAddress },
    /// The ledger is carrying out the transfer.
    Transferring { token: Token, to: WalletAddress },
    /// The transferred token is being written.
    Storing,
    /// The transfer has ended.
    Done,
}

impl NftApp {
    /// What one step of a transfer is.
    ///
    /// The contract is loaded, then the token. The service must own the
    /// contract and hold the token, else the transfer is `Forbidden`; the
    /// token's id and the wallets must be values of the ledger, else it is an
    /// `Internal` failure. The
    /// ledger carries out the transfer, and only when it has confirmed it is
    /// the token written: with the new owner and without a price. A failure
    /// of a collaborator ends the transfer with that failure.
    pub open spec fn transfer_rule(
        self,
        state: TransferState,
        event: Event,
        step: Step<TransferState>,
    ) -> bool {
        match (state, event) {
            (
                TransferState::LoadingContract { address, token_id, to },
                Event::Contract(Ok(contract)),
            ) => {
                &&& step.state == TransferState::LoadingToken { contract, to }
                &&& step.action == Action::LoadToken { address, token_id }
            },
            (TransferState::LoadingToken { contract, to }, Event::Token(Ok(token))) => {
                if !may_dispose(self.my_wallet@, contract, token) {
                    step.state is Done && step.action.fails_with(Kind::Forbidden)
                } else if !transferable(contract, token, to) {
                    step.state is Done && step.action.fails_with(Kind::Internal)
                } else {
                    &&& step.state == TransferState::Transferring { token, to }
                    &&& step.action matches Action::CallLedger(call) && call.transacts(
                        contract,
                        "safeTransferFrom"@,
                        seq![
                            ArgumentView::Address(contract.wallet_address@),
                            ArgumentView::Address(to@),
                            ArgumentView::Uint(token.token_id@),
                        ],
                    )
                }
            },
            (TransferState::Transferring { token, to }, Event::Confirmed(Ok(_))) => {
                &&& step.state is Storing
                &&& step.action matches Action::PutToken(moved) && moved@ == (TokenView {
                    owner_address: to@,
                    price_eth: None,
                    ..token@
                }) && (token.wf() ==> moved.wf())
            },
            (TransferState::Storing, Event::Stored(Ok(_))) => {
                step.state is Done && step.action.succeeds()
            },
            (TransferState::Done, _) => step.state is Done && step.action.fails_with(
                Kind::Internal,
            ),
            _ => {
                &&& step.state is Done
                &&& match failure_of(event) {
                    Some(e) => step.action.fails_as(e),
                    None => step.action.fails_with(Kind::Internal),
                }
            },
        }
    }

    /// Begins the transfer of the token `token_id` of the contract `address`
    /// to the wallet `to_address`: the contract is loaded first.
    pub fn transfer(&self, address: ContractId, token_id: TokenId, to_address: WalletAddress) -> (step:
        Step<TransferState>)
        ensures
            step.state == (TransferState::LoadingContract { address, token_id, to: to_address }),
            step.action matches Action::LoadContract { address: a } && a@ == address@,
    {
        let first = Action::LoadContract { address: address.clone() };
        Step {
            state: TransferState::LoadingContract { address, token_id, to: to_address },
            action: first,
        }
    }

    /// Takes one step of a transfer.
    pub fn transfer_next(&self, state: TransferState, event: Event) -> (step: Step<TransferState>)
        ensures
            self.transfer_rule(state, event, step),
    {
        match (state, event) {
            (
                TransferState::LoadingContract { address, token_id, to },
                Event::Contract(Ok(contract)),
            ) => {
                Step {
                    state: TransferState::LoadingToken { contract, to },
                    action: Action::LoadToken { address, token_id },
                }
            },
            (TransferState::LoadingToken { contract, to }, Event::Token(Ok(token))) => {
                match self.authorize(&contract, &token) {
                    Err(e) => {
                        return Step { state: TransferState::Done, action: Action::Finish(Err(e)) };
                    },
                    Ok(_) => {},
                }
                match self.canvas.transfer(&contract, &token, to.clone()) {
                    Err(e) => Step { state: TransferState::Done, action: Action::Finish(Err(e)) },
                    Ok(call) => Step {
                        state: TransferState::Transferring { token, to },
                        action: Action::CallLedger(call),
                    },
                }
            },
            (TransferState::Transferring { token, to }, Event::Confirmed(Ok(_))) => {
                Step { state: TransferState::Storing, action: Action::PutToken(token.transfer(to)) }
            },
            (TransferState::Storing, Event::Stored(Ok(_))) => {
                Step { state: TransferState::Done, action: Action::Finish(Ok(true)) }
            },
            (TransferState::Done, _) => fail_unexpected(TransferState::Done),
            (_, event) => fail_from(TransferState::Done, event),
        }
    }

    /// Whoever asks: a transfer of a token that the contract's wallet does
    /// not hold is `Forbidden`.
    pub proof fn lemma_transfer_needs_owner(
        self,
        contract: Contract,
        to: WalletAddress,
        token: Token,
        step: Step<TransferState>,
    )
        requires
            token.owner_address@ != contract.wallet_address@,
            self.transfer_rule(
                TransferState::LoadingToken { contract, to },
                Event::Token(Ok(token)),
                step,
            ),
        ensures
            step.action.fails_with(Kind::Forbidden),
    {
    }

    /// A token is written only after the ledger has confirmed the transfer,
    /// and a transfer succeeds only when that write has succeeded.
    pub proof fn lemma_transfer_writes_after_confirmation(
        self,
        state: TransferState,
        event: Event,
        step: Step<TransferState>,
    )
        requires
            self.transfer_rule(state, event, step),
        ensures
            step.action is PutToken ==> state is Transferring && event matches Event::Confirmed(Ok(_)),
            step.action.succeeds() ==> state is Storing && event matches Event::Stored(Ok(_)),
    {
    }
}

} // verus!
