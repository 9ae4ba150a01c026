//! The token lifecycle: mint, sell, transfer and reconciliation.
//!
//! Each operation is a chain of calls to collaborators that may fail one by
//! one. The caller performs the calls; the functions here decide, from the
//! state of an operation and the outcome of its last call, which call comes
//! next, with what arguments, and when the operation ends and how.

use vstd::prelude::*;
use crate::aws::lambda::{Request, Response};
use crate::domain::contract::{Contract, ContractId, Schema, WalletAddress};
use crate::domain::price::{Price, is_decimal, is_positive_decimal};
use crate::domain::token::{Token, TokenId};
use crate::errors::{AppError, Kind};
use crate::ethereum::canvas::{Canvas, LedgerCall};
use crate::ipfs::IpfsOutput;
use crate::open_sea::metadata::Metadata;

verus! {

/// The outcome of a call to a collaborator.
pub type Outcome<T> = Result<T, AppError>;

/// What a collaborator reported back.
#[derive(Debug)]
pub enum Event {
    /// A lookup of one contract has ended.
    Contract(Outcome<Contract>),
    /// The listing of all contracts has ended.
    Contracts(Outcome<Vec<Contract>>),
    /// A lookup of one token has ended.
    Token(Outcome<Token>),
    /// The listing of the tokens of a contract has ended.
    Tokens(Outcome<Vec<Token>>),
    /// The object-storage gateway has signed the locations asked for.
    SignedUrls(Outcome<Vec<String>>),
    /// The bytes of the source object have been fetched.
    Source(Outcome<Vec<u8>>),
    /// The content-addressable store has taken an upload.
    Uploaded(Outcome<IpfsOutput>),
    /// The ledger has confirmed a transaction.
    Confirmed(Outcome<()>),
    /// The ledger has told the id of a token.
    TokenId(Outcome<String>),
    /// The ledger has told the owner of a token.
    Owner(Outcome<String>),
    /// The marketplace adapter has answered.
    Marketplace(Outcome<Response>),
    /// The store has written a token.
    Stored(Outcome<()>),
}

/// The call that comes next.
#[derive(Debug)]
pub enum Action {
    /// Find the latest contract of a wallet under a standard.
    ResolveContract { wallet_address: WalletAddress, schema: Schema },
    /// Load a contract by its address.
    LoadContract { address: ContractId },
    /// Load a token by its contract and id.
    LoadToken { address: ContractId, token_id: TokenId },
    /// List every contract.
    ListContracts,
    /// List every token of a contract.
    ListTokens { address: ContractId },
    /// Find the token of a contract that has the given image hash.
    FindTokenByImage { address: ContractId, ipfs_image_hash: String },
    /// Ask the object-storage gateway to sign a location.
    SignUrls { gs_paths: Vec<String> },
    /// Fetch the bytes behind a signed location.
    Fetch { url: String },
    /// Upload bytes to the content-addressable store under a name.
    UploadImage { bytes: Vec<u8>, name: String },
    /// Upload a metadata document to the content-addressable store under a name.
    UploadMetadata { metadata: Metadata, name: String },
    /// Make a call to a contract on the ledger: a read, or a transaction that
    /// is awaited until it is confirmed.
    CallLedger(LedgerCall),
    /// Send a request to the marketplace adapter.
    AskMarketplace(Request),
    /// Write a token to the store.
    PutToken(Token),
    /// The operation has ended, with its result.
    Finish(Outcome<bool>),
}

impl Action {
    /// Whether the action ends the operation with the failure `kind`.
    pub open spec fn fails_with(self, kind: Kind) -> bool {
        self matches Action::Finish(Err(e)) && e.kind == kind
    }

    /// Whether the action ends the operation with exactly the failure `err`.
    pub open spec fn fails_as(self, err: AppError) -> bool {
        self == Action::Finish(Err::<bool, AppError>(err))
    }

    /// Whether the action ends the operation with success.
    pub open spec fn succeeds(self) -> bool {
        self == Action::Finish(Ok::<bool, AppError>(true))
    }
}

/// One step of an operation: the state in which it waits, and the call that
/// the caller makes for it meanwhile.
#[derive(Debug)]
pub struct Step<S> {
    pub state: S,
    pub action: Action,
}

/// The failure of an event, if the event reports one.
pub open spec fn failure_of(event: Event) -> Option<AppError> {
    match event {
        Event::Contract(Err(e)) => Some(e),
        Event::Contracts(Err(e)) => Some(e),
        Event::Token(Err(e)) => Some(e),
        Event::Tokens(Err(e)) => Some(e),
        Event::SignedUrls(Err(e)) => Some(e),
        Event::Source(Err(e)) => Some(e),
        Event::Uploaded(Err(e)) => Some(e),
        Event::Confirmed(Err(e)) => Some(e),
        Event::TokenId(Err(e)) => Some(e),
        Event::Owner(Err(e)) => Some(e),
        Event::Marketplace(Err(e)) => Some(e),
        Event::Stored(Err(e)) => Some(e),
        _ => None,
    }
}

/// The price that an answer of the adapter confirms for a listing: the answer
/// must report success, carry the confirmation, and name a decimal price.
pub open spec fn confirmed_listing(resp: Response) -> Option<Seq<char>> {
    if resp.result == 0 && resp.sell_response.is_some() && is_decimal(
        resp.sell_response.unwrap().sell_price@,
    ) {
        Some(resp.sell_response.unwrap().sell_price@)
    } else {
        None
    }
}

/// The listing that an answer of the adapter reports for a token: the answer
/// must report success, carry the token's state, and name a decimal price. A
/// price that is not greater than zero means that the token is not listed.
pub open spec fn reported_listing(resp: Response) -> Option<Option<Seq<char>>> {
    if resp.result == 0 && resp.info_response.is_some() && is_decimal(
        resp.info_response.unwrap().sell_price@,
    ) {
        if is_positive_decimal(resp.info_response.unwrap().sell_price@) {
            Some(Some(resp.info_response.unwrap().sell_price@))
        } else {
            Some(None)
        }
    } else {
        None
    }
}

/// Reads the price that the marketplace confirmed for a listing. An answer
/// that reports a failure, lacks the confirmation or names no decimal price
/// is an `Internal` failure.
pub fn confirmed_price(resp: &Response) -> (res: Result<Price, AppError>)
    ensures
        match confirmed_listing(*resp) {
            Some(p) => res.is_ok() && res.unwrap()@ == p && res.unwrap().wf(),
            None => res.is_err() && res.unwrap_err().kind == Kind::Internal,
        },
{
    if resp.result != 0 {
        return Err(AppError::new(Kind::Internal, "the marketplace reported a failure"));
    }
    match &resp.sell_response {
        None => Err(AppError::new(Kind::Internal, "the marketplace reported a failure")),
        Some(sell) => match Price::parse(sell.sell_price.as_str()) {
            Some(price) => Ok(price),
            None => Err(AppError::new(Kind::Internal, "the marketplace named no price")),
        },
    }
}

/// Reads the listing that the marketplace reports for a token: its price, or
/// `None` when the reported price is not greater than zero. An answer that
/// reports a failure, lacks the token's state or names no decimal price is an
/// `Internal` failure.
pub fn reported_price(resp: &Response) -> (res: Result<Option<Price>, AppError>)
    ensures
        match reported_listing(*resp) {
            Some(Some(p)) => res.is_ok() && res.unwrap().is_some() && res.unwrap().unwrap()@ == p
                && res.unwrap().unwrap().wf(),
            Some(None) => res.is_ok() && res.unwrap().is_none(),
            None => res.is_err() && res.unwrap_err().kind == Kind::Internal,
        },
{
    if resp.result != 0 {
        return Err(AppError::new(Kind::Internal, "the marketplace reported a failure"));
    }
    match &resp.info_response {
        None => Err(AppError::new(Kind::Internal, "the marketplace reported a failure")),
        Some(info) => match Price::parse(info.sell_price.as_str()) {
            Some(price) => if price.is_positive() {
                Ok(Some(price))
            } else {
                Ok(None)
            },
            None => Err(AppError::new(Kind::Internal, "the marketplace named no price")),
        },
    }
}

/// The orchestrator of the token lifecycle, acting for one wallet.
#[derive(Debug)]
pub struct NftApp {
    /// The wallet in whose name the service mints, sells and transfers.
    pub my_wallet: WalletAddress,
    /// The client that builds the calls to the ledger.
    pub canvas: Canvas,
}

/// Whether the wallet `caller` may sell or transfer `token` of `contract`: it
/// must own the contract, and the contract's wallet must hold the token.
pub open spec fn may_dispose(caller: Seq<char>, contract: Contract, token: Token) -> bool {
    contract.wallet_address@ == caller && contract.wallet_address@ == token.owner_address@
}

impl NftApp {
    /// The orchestrator that acts for `my_wallet`.
    pub fn new(my_wallet: WalletAddress, canvas: Canvas) -> (app: Self)
        ensures
            app.my_wallet == my_wallet,
            app.canvas == canvas,
    {
        NftApp { my_wallet, canvas }
    }

    /// Decides whether the service may sell or transfer `token` of `contract`,
    /// and refuses with `Forbidden` when it may not.
    pub fn authorize(&self, contract: &Contract, token: &Token) -> (res: Result<(), AppError>)
        ensures
            may_dispose(self.my_wallet@, *contract, *token) ==> res.is_ok(),
            !may_dispose(self.my_wallet@, *contract, *token) ==> res.is_err()
                && res.unwrap_err().kind == Kind::Forbidden,
    {
        if !contract.wallet_address.same(&self.my_wallet) || !contract.wallet_address.same(
            &token.owner_address,
        ) {
            return Err(AppError::new(Kind::Forbidden, "permission denied"));
        }
        Ok(())
    }
}

/// The step that ends an operation because the event reports a failure, or
/// because the event is not the one that the state waits for.
pub fn fail_from<S>(done: S, event: Event) -> (step: Step<S>)
    ensures
        step.state == done,
        match failure_of(event) {
            Some(e) => step.action.fails_as(e),
            None => step.action.fails_with(Kind::Internal),
        },
{
    let failure = match event {
        Event::Contract(Err(e)) => e,
        Event::Contracts(Err(e)) => e,
        Event::Token(Err(e)) => e,
        Event::Tokens(Err(e)) => e,
        Event::SignedUrls(Err(e)) => e,
        Event::Source(Err(e)) => e,
        Event::Uploaded(Err(e)) => e,
        Event::Confirmed(Err(e)) => e,
        Event::TokenId(Err(e)) => e,
        Event::Owner(Err(e)) => e,
        Event::Marketplace(Err(e)) => e,
        Event::Stored(Err(e)) => e,
        _ => AppError::new(Kind::Internal, "unexpected event"),
    };
    Step { state: done, action: Action::Finish(Err(failure)) }
}

/// The step that ends an operation because nothing was awaited any more.
pub fn fail_unexpected<S>(done: S) -> (step: Step<S>)
    ensures
        step.state == done,
        step.action.fails_with(Kind::Internal),
{
    Step { state: done, action: Action::Finish(Err(AppError::new(Kind::Internal, "unexpected event"))) }
}

} // verus!
