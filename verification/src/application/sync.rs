//! Reconciliation: overwriting what is stored of every token with what the
//! ledger and the marketplace say of it.

use vstd::prelude::*;
use crate::application::nft::{
    Action,
    Event,
    NftApp,
    Step,
    fail_from,
    fail_unexpected,
    failure_of,
    reported_listing,
    reported_price,
};
use crate::aws::lambda::Request;
use crate::domain::contract::{Contract, WalletAddress};
use crate::domain::token::{Token, TokenView};
use crate::errors::Kind;
use crate::text::text_eq;
use crate::ethereum::canvas::{ArgumentView, Canvas, ReturnKind, callable};
use crate::ethereum::is_u256_decimal;

verus! {

/// Whether a command of the batch asks for a reconciliation pass.
pub fn asks_for_sync(command: &str) -> (yes: bool)
    ensures
        yes == (command@ == "sync-token"@),
{
    text_eq(command, "sync-token")
}

/// Where a reconciliation pass stands.
#[derive(Debug)]
pub enum SyncState {
    /// The contracts are being listed.
    ListingContracts,
    /// The tokens of the contract at `at` are being listed.
    ListingTokens { contracts: Vec<Contract>, at: usize },
    /// The ledger is being asked for the owner of the token at `token_at`.
    ReadingOwner { contracts: Vec<Contract>, at: usize, tokens: Vec<Token>, token_at: usize },
    /// The marketplace is being asked for the listing of the token at
    /// `token_at`, whose owner on the ledger is `owner`.
    ReadingListing {
        contracts: Vec<Contract>,
        at: usize,
        tokens: Vec<Token>,
        token_at: usize,
        owner: String,
    },
    /// The token at `token_at` is being written.
    Storing { contracts: Vec<Contract>, at: usize, tokens: Vec<Token>, token_at: usize },
    /// The pass has ended.
    Done,
}

impl SyncState {
    /// Whether the positions of the state lie within its lists.
    pub open spec fn wf(self) -> bool {
        match self {
            SyncState::ListingContracts => true,
            SyncState::ListingTokens { contracts, at } => at < contracts@.len(),
            SyncState::ReadingOwner { contracts, at, tokens, token_at } => at < contracts@.len()
                && token_at < tokens@.len(),
            SyncState::ReadingListing { contracts, at, tokens, token_at, owner } => at
                < contracts@.len() && token_at < tokens@.len(),
            SyncState::Storing { contracts, at, tokens, token_at } => at < contracts@.len()
                && token_at < tokens@.len(),
            SyncState::Done => true,
        }
    }

    /// How much of the pass is left, as a tuple that is compared from the
    /// left: contracts not yet listed, whether the tokens are still to be
    /// listed, tokens left, and calls left for the token in hand.
    pub open spec fn rank(self) -> (int, int, int, int, int) {
        match self {
            SyncState::ListingContracts => (1, 0, 0, 0, 0),
            SyncState::ListingTokens { contracts, at } => (0, contracts@.len() - at, 1, 0, 0),
            SyncState::ReadingOwner { contracts, at, tokens, token_at } => (
                0,
                contracts@.len() - at,
                0,
                tokens@.len() - token_at,
                2,
            ),
            SyncState::ReadingListing { contracts, at, tokens, token_at, owner } => (
                0,
                contracts@.len() - at,
                0,
                tokens@.len() - token_at,
                1,
            ),
            SyncState::Storing { contracts, at, tokens, token_at } => (
                0,
                contracts@.len() - at,
                0,
                tokens@.len() - token_at,
                0,
            ),
            SyncState::Done => (0, 0, 0, 0, 0),
        }
    }
}

/// Whether the first tuple comes before the second when they are compared
/// from the left.
pub open spec fn rank_below(a: (int, int, int, int, int), b: (int, int, int, int, int)) -> bool {
    ||| a.0 < b.0
    ||| a.0 == b.0 && a.1 < b.1
    ||| a.0 == b.0 && a.1 == b.1 && a.2 < b.2
    ||| a.0 == b.0 && a.1 == b.1 && a.2 == b.2 && a.3 < b.3
    ||| a.0 == b.0 && a.1 == b.1 && a.2 == b.2 && a.3 == b.3 && a.4 < b.4
}

/// Whether `request` asks for the state of the token `token_id` of the
/// contract `address`.
pub open spec fn is_info_request(request: Request, address: Seq<char>, token_id: Seq<char>) -> bool {
    &&& request.method@ == "info"@
    &&& request.sell_request.is_none()
    &&& request.info_request matches Some(r) && r.token_address@ == address && r.token_id@
        == token_id
}

/// What it is to go on after the contract at `at` is done with: the tokens of
/// the next contract are listed, or the pass ends when there is none.
pub open spec fn moves_to_contract_after(contracts: Vec<Contract>, at: usize, step: Step<SyncState>) -> bool {
    if at + 1 < contracts@.len() {
        &&& step.state matches SyncState::ListingTokens { contracts: c, at: next } && c
            == contracts && next == at + 1
        &&& step.action matches Action::ListTokens { address } && address@
            == contracts@[at + 1].address@
    } else {
        step.state is Done && step.action.succeeds()
    }
}

/// What it is to take up the token at `token_at`: the ledger is asked for
/// its owner, or the pass ends as an `Internal` failure where the token's id
/// is no number of the ledger or the contract cannot be called.
pub open spec fn takes_up_token(
    contracts: Vec<Contract>,
    at: usize,
    tokens: Vec<Token>,
    token_at: int,
    step: Step<SyncState>,
) -> bool {
    if !(is_u256_decimal(tokens@[token_at].token_id@) && callable(contracts@[at as int])) {
        step.state is Done && step.action.fails_with(Kind::Internal)
    } else {
        &&& step.state matches SyncState::ReadingOwner {
            contracts: c,
            at: a,
            tokens: t,
            token_at: k,
        } && c == contracts && a == at && t == tokens && k == token_at
        &&& step.action matches Action::CallLedger(call) && call.reads(
            contracts@[at as int],
            "ownerOf"@,
            seq![ArgumentView::Uint(tokens@[token_at].token_id@)],
            ReturnKind::Address,
        )
    }
}

impl NftApp {
    /// What one step of a reconciliation pass is.
    ///
    /// The pass walks the contracts in the order in which they were listed,
    /// and under each its tokens in their order. For every token the ledger
    /// is asked for the owner and the marketplace for the listing, and the
    /// token is written with that owner and that price, or without a price
    /// when the marketplace reports none that is greater than zero. The
    /// first failure of a collaborator ends the pass with that failure.
    pub open spec fn sync_rule(self, state: SyncState, event: Event, step: Step<SyncState>) -> bool {
        match (state, event) {
            (SyncState::ListingContracts, Event::Contracts(Ok(contracts))) => {
                if contracts@.len() == 0 {
                    step.state is Done && step.action.succeeds()
                } else {
                    &&& step.state == SyncState::ListingTokens { contracts, at: 0 }
                    &&& step.action matches Action::ListTokens { address } && address@
                        == contracts@[0].address@
                }
            },
            (SyncState::ListingTokens { contracts, at }, Event::Tokens(Ok(tokens))) => {
                if !state.wf() {
                    step.state is Done && step.action.fails_with(Kind::Internal)
                } else if tokens@.len() == 0 {
                    moves_to_contract_after(contracts, at, step)
                } else {
                    takes_up_token(contracts, at, tokens, 0, step)
                }
            },
            (
                SyncState::ReadingOwner { contracts, at, tokens, token_at },
                Event::Owner(Ok(owner)),
            ) => {
                if !state.wf() {
                    step.state is Done && step.action.fails_with(Kind::Internal)
                } else {
                    &&& step.state == SyncState::ReadingListing {
                        contracts,
                        at,
                        tokens,
                        token_at,
                        owner,
                    }
                    &&& step.action matches Action::AskMarketplace(request) && is_info_request(
                        request,
                        contracts@[at as int].address@,
                        tokens@[token_at as int].token_id@,
                    )
                }
            },
            (
                SyncState::ReadingListing { contracts, at, tokens, token_at, owner },
                Event::Marketplace(Ok(resp)),
            ) => {
                if !state.wf() {
                    step.state is Done && step.action.fails_with(Kind::Internal)
                } else {
                    match reported_listing(resp) {
                        Some(price) => {
                            &&& step.state == SyncState::Storing { contracts, at, tokens, token_at }
                            &&& step.action matches Action::PutToken(token) && token@
                                == (TokenView {
                                owner_address: owner@,
                                price_eth: price,
                                ..tokens@[token_at as int]@
                            }) && (tokens@[token_at as int].wf() ==> token.wf())
                        },
                        None => step.state is Done && step.action.fails_with(Kind::Internal),
                    }
                }
            },
            (SyncState::Storing { contracts, at, tokens, token_at }, Event::Stored(Ok(_))) => {
                if !state.wf() {
                    step.state is Done && step.action.fails_with(Kind::Internal)
                } else if token_at + 1 < tokens@.len() {
                    takes_up_token(contracts, at, tokens, token_at + 1, step)
                } else {
                    moves_to_contract_after(contracts, at, step)
                }
            },
            (SyncState::Done, _) => step.state is Done && step.action.fails_with(Kind::Internal),
            _ => {
                &&& step.state is Done
                &&& match failure_of(event) {
                    Some(e) => step.action.fails_as(e),
                    None => step.action.fails_with(Kind::Internal),
                }
            },
        }
    }

    /// Begins a reconciliation pass: the contracts are listed first.
    pub fn sync(&self) -> (step: Step<SyncState>)
        ensures
            step.state is ListingContracts,
            step.action is ListContracts,
    {
        Step { state: SyncState::ListingContracts, action: Action::ListContracts }
    }

    /// Takes one step of a reconciliation pass.
    pub fn sync_next(&self, state: SyncState, event: Event) -> (step: Step<SyncState>)
        ensures
            self.sync_rule(state, event, step),
    {
        match (state, event) {
            (SyncState::ListingContracts, Event::Contracts(Ok(contracts))) => {
                if contracts.len() == 0 {
                    return Step { state: SyncState::Done, action: Action::Finish(Ok(true)) };
                }
                let action = Action::ListTokens { address: contracts[0].address.clone() };
                Step { state: SyncState::ListingTokens { contracts, at: 0 }, action }
            },
            (SyncState::ListingTokens { contracts, at }, Event::Tokens(Ok(tokens))) => {
                if at >= contracts.len() {
                    return fail_unexpected(SyncState::Done);
                }
                if tokens.len() == 0 {
                    contract_after(contracts, at)
                } else {
                    take_up_token(&self.canvas, contracts, at, tokens, 0)
                }
            },
            (
                SyncState::ReadingOwner { contracts, at, tokens, token_at },
                Event::Owner(Ok(owner)),
            ) => {
                if at >= contracts.len() || token_at >= tokens.len() {
                    return fail_unexpected(SyncState::Done);
                }
                let request = Request::info(&contracts[at].address, &tokens[token_at].token_id);
                Step {
                    state: SyncState::ReadingListing { contracts, at, tokens, token_at, owner },
                    action: Action::AskMarketplace(request),
                }
            },
            (
                SyncState::ReadingListing { contracts, at, tokens, token_at, owner },
                Event::Marketplace(Ok(resp)),
            ) => {
                if at >= contracts.len() || token_at >= tokens.len() {
                    return fail_unexpected(SyncState::Done);
                }
                match reported_price(&resp) {
                    Ok(price) => {
                        let token = tokens[token_at].clone().update(
                            price,
                            WalletAddress::from(owner),
                        );
                        Step {
                            state: SyncState::Storing { contracts, at, tokens, token_at },
                            action: Action::PutToken(token),
                        }
                    },
                    Err(e) => Step { state: SyncState::Done, action: Action::Finish(Err(e)) },
                }
            },
            (SyncState::Storing { contracts, at, tokens, token_at }, Event::Stored(Ok(_))) => {
                if at >= contracts.len() || token_at >= tokens.len() {
                    return fail_unexpected(SyncState::Done);
                }
                if token_at + 1 < tokens.len() {
                    take_up_token(&self.canvas, contracts, at, tokens, token_at + 1)
                } else {
                    contract_after(contracts, at)
                }
            },
            (SyncState::Done, _) => fail_unexpected(SyncState::Done),
            (_, event) => fail_from(SyncState::Done, event),
        }
    }

    /// Every step of a pass leaves less to do: the pass ends.
    pub proof fn lemma_sync_advances(self, state: SyncState, event: Event, step: Step<SyncState>)
        requires
            state.wf(),
            !(state is Done),
            self.sync_rule(state, event, step),
        ensures
            step.state.wf(),
            rank_below(step.state.rank(), state.rank()),
    {
    }

    /// A pass writes a token only with the owner that the ledger told and
    /// the listing that the marketplace reported for it.
    pub proof fn lemma_sync_writes_ground_truth(
        self,
        state: SyncState,
        event: Event,
        step: Step<SyncState>,
    )
        requires
            state.wf(),
            self.sync_rule(state, event, step),
            step.action is PutToken,
        ensures
            state matches SyncState::ReadingListing { tokens, token_at, owner, .. }
                && event matches Event::Marketplace(Ok(resp)) && reported_listing(resp).is_some()
                && step.action->PutToken_0@.owner_address == owner@
                && step.action->PutToken_0@.price_eth == reported_listing(resp).unwrap(),
    {
    }
}

/// Goes on after the contract at `at`.
fn contract_after(contracts: Vec<Contract>, at: usize) -> (step: Step<SyncState>)
    requires
        at < contracts@.len(),
    ensures
        moves_to_contract_after(contracts, at, step),
{
    let n = contracts.len();
    if at + 1 < n {
        let action = Action::ListTokens { address: contracts[at + 1].address.clone() };
        Step { state: SyncState::ListingTokens { contracts, at: at + 1 }, action }
    } else {
        Step { state: SyncState::Done, action: Action::Finish(Ok(true)) }
    }
}

/// Takes up the token at `token_at`.
fn take_up_token(
    canvas: &Canvas,
    contracts: Vec<Contract>,
    at: usize,
    tokens: Vec<Token>,
    token_at: usize,
) -> (step: Step<SyncState>)
    requires
        at < contracts@.len(),
        token_at < tokens@.len(),
    ensures
        takes_up_token(contracts, at, tokens, token_at as int, step),
{
    match canvas.owner_of(&contracts[at], &tokens[token_at].token_id) {
        Err(e) => Step { state: SyncState::Done, action: Action::Finish(Err(e)) },
        Ok(call) => Step {
            state: SyncState::ReadingOwner { contracts, at, tokens, token_at },
            action: Action::CallLedger(call),
        },
    }
}

} // verus!
