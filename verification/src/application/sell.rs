//! Selling: listing a token of the service's wallet on the marketplace.

use vstd::prelude::*;
use crate::application::nft::{
    Action,
    Event,
    NftApp,
    Step,
    confirmed_listing,
    confirmed_price,
    fail_from,
    fail_unexpected,
    failure_of,
    may_dispose,
};
use crate::aws::lambda::Request;
use crate::domain::contract::{Contract, ContractId};
use crate::domain::price::{Price, is_positive_decimal};
use crate::domain::token::{Token, TokenId, TokenView};
use crate::errors::{AppError, Kind};

verus! {

/// Where a sale stands.
#[derive(Debug)]
pub enum SellState {
    /// The contract is being loaded.
    LoadingContract { address: ContractId, token_id: TokenId, ether: Price },
    /// The token is being loaded.
    LoadingToken { contract: Contract, ether: Price },
    /// The marketplace is being asked to list the token.
    Listing { token: Token },
    /// The listed token is being written.
    Storing,
    /// The sale has ended.
    Done,
}

/// Whether `request` asks to list one unit of the ERC-721 token `token_id` of
/// the contract `address` at the price `ether`.
pub open spec fn is_sell_request(
    request: Request,
    address: Seq<char>,
    token_id: Seq<char>,
    ether: Price,
) -> bool {
    &&& request.method@ == "sell"@
    &&& request.info_request.is_none()
    &&& request.sell_request matches Some(r) && r.token_address@ == address && r.token_id@
        == token_id && r.ether == ether && r.quantity == 1 && r.schema@ == "ERC721"@
}

impl NftApp {
    /// What one step of a sale is: the state and the outcome of the last call
    /// decide the next state and the next call.
    ///
    /// The contract is loaded, then the token. The service must own the
    /// contract and hold the token, else the sale is `Forbidden`; the price
    /// must be greater than zero, else it is a `BadRequest`. The marketplace
    /// is asked to list the token, and the token is written with the price
    /// that the marketplace confirmed. A failure of a collaborator ends the
    /// sale with that failure.
    pub open spec fn sell_rule(self, state: SellState, event: Event, step: Step<SellState>) -> bool {
        match (state, event) {
            (SellState::LoadingContract { address, token_id, ether }, Event::Contract(Ok(contract))) => {
                &&& step.state == SellState::LoadingToken { contract, ether }
                &&& step.action == Action::LoadToken { address, token_id }
            },
            (SellState::LoadingToken { contract, ether }, Event::Token(Ok(token))) => {
                if !may_dispose(self.my_wallet@, contract, token) {
                    step.state is Done && step.action.fails_with(Kind::Forbidden)
                } else if !is_positive_decimal(ether@) {
                    step.state is Done && step.action.fails_with(Kind::BadRequest)
                } else {
                    &&& step.state == SellState::Listing { token }
                    &&& step.action matches Action::AskMarketplace(request) && is_sell_request(
                        request,
                        contract.address@,
                        token.token_id@,
                        ether,
                    )
                }
            },
            (SellState::Listing { token }, Event::Marketplace(Ok(resp))) => {
                match confirmed_listing(resp) {
                    Some(price) => {
                        &&& step.state is Storing
                        &&& step.action matches Action::PutToken(listed) && listed@ == (TokenView {
                            price_eth: Some(price),
                            ..token@
                        }) && (token.wf() ==> listed.wf())
                    },
                    None => step.state is Done && step.action.fails_with(Kind::Internal),
                }
            },
            (SellState::Storing, Event::Stored(Ok(_))) => {
                step.state is Done && step.action.succeeds()
            },
            (SellState::Done, _) => step.state is Done && step.action.fails_with(Kind::Internal),
            _ => {
                &&& step.state is Done
                &&& match failure_of(event) {
                    Some(e) => step.action.fails_as(e),
                    None => step.action.fails_with(Kind::Internal),
                }
            },
        }
    }

    /// Begins the sale of the token `token_id` of the contract `address` at
    /// the price `ether`: the contract is loaded first.
    pub fn sell(&self, address: ContractId, token_id: TokenId, ether: Price) -> (step: Step<
        SellState,
    >)
        ensures
            step.state == (SellState::LoadingContract { address, token_id, ether }),
            step.action matches Action::LoadContract { address: a } && a@ == address@,
    {
        let first = Action::LoadContract { address: address.clone() };
        Step { state: SellState::LoadingContract { address, token_id, ether }, action: first }
    }

    /// Takes one step of a sale.
    pub fn sell_next(&self, state: SellState, event: Event) -> (step: Step<SellState>)
        ensures
            self.sell_rule(state, event, step),
    {
        match (state, event) {
            (SellState::LoadingContract { address, token_id, ether }, Event::Contract(Ok(contract))) => {
                Step {
                    state: SellState::LoadingToken { contract, ether },
                    action: Action::LoadToken { address, token_id },
                }
            },
            (SellState::LoadingToken { contract, ether }, Event::Token(Ok(token))) => {
                match self.authorize(&contract, &token) {
                    Err(e) => {
                        return Step { state: SellState::Done, action: Action::Finish(Err(e)) };
                    },
                    Ok(_) => {},
                }
                if !ether.is_positive() {
                    return Step {
                        state: SellState::Done,
                        action: Action::Finish(
                            Err(
                                AppError::new(
                                    Kind::BadRequest,
                                    "the price must be greater than zero",
                                ),
                            ),
                        ),
                    };
                }
                let request = Request::sell(&contract.address, &token.token_id, ether);
                Step { state: SellState::Listing { token }, action: Action::AskMarketplace(request) }
            },
            (SellState::Listing { token }, Event::Marketplace(Ok(resp))) => {
                match confirmed_price(&resp) {
                    Ok(price) => Step {
                        state: SellState::Storing,
                        action: Action::PutToken(token.update_price(price)),
                    },
                    Err(e) => Step { state: SellState::Done, action: Action::Finish(Err(e)) },
                }
            },
            (SellState::Storing, Event::Stored(Ok(_))) => {
                Step { state: SellState::Done, action: Action::Finish(Ok(true)) }
            },
            (SellState::Done, _) => fail_unexpected(SellState::Done),
            (_, event) => fail_from(SellState::Done, event),
        }
    }

    /// Whoever asks, and at whatever price: a sale of a token that the
    /// contract's wallet does not hold is `Forbidden`.
    pub proof fn lemma_sell_needs_owner(
        self,
        contract: Contract,
        ether: Price,
        token: Token,
        step: Step<SellState>,
    )
        requires
            token.owner_address@ != contract.wallet_address@,
            self.sell_rule(
                SellState::LoadingToken { contract, ether },
                Event::Token(Ok(token)),
                step,
            ),
        ensures
            step.action.fails_with(Kind::Forbidden),
    {
    }

    /// The price that is written is the price that the marketplace confirmed,
    /// whatever price was asked.
    pub proof fn lemma_sell_stores_confirmed_price(
        self,
        token: Token,
        resp: crate::aws::lambda::Response,
        step: Step<SellState>,
    )
        requires
            self.sell_rule(SellState::Listing { token }, Event::Marketplace(Ok(resp)), step),
            step.action is PutToken,
        ensures
            resp.result == 0,
            resp.sell_response.is_some(),
            step.action->PutToken_0@.price_eth == Some(resp.sell_response.unwrap().sell_price@),
    {
    }

    /// A token is written only when the marketplace has confirmed the
    /// listing, and a sale succeeds only when that write has succeeded.
    pub proof fn lemma_sell_writes_after_confirmation(
        self,
        state: SellState,
        event: Event,
        step: Step<SellState>,
    )
        requires
            self.sell_rule(state, event, step),
        ensures
            step.action is PutToken ==> state is Listing && event matches Event::Marketplace(Ok(_)),
            step.action.succeeds() ==> state is Storing && event matches Event::Stored(Ok(_)),
    {
    }
}

} // verus!
