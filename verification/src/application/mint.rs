//! Minting: turning a source object into a token on the ledger.

use vstd::prelude::*;
use crate::application::nft::{
    Action,
    Event,
    NftApp,
    Step,
    fail_from,
    fail_unexpected,
    failure_of,
};
use crate::domain::contract::{Contract, Schema};
use crate::domain::time::LocalDateTime;
use crate::domain::token::{Token, TokenId, TokenView};
use crate::errors::{AppError, Kind};
use crate::ipfs::IpfsOutput;
use crate::ethereum::canvas::{ArgumentView, ReturnKind, callable, mintable};
use crate::open_sea::metadata::Metadata;
use crate::text::join;

verus! {

/// What a mint is for: the work, and the time at which the token is created.
#[derive(Debug)]
pub struct MintJob {
    pub work_id: String,
    pub now: LocalDateTime,
    pub contract: Contract,
}

/// Where a mint stands.
#[derive(Debug)]
pub enum MintState {
    /// The minting wallet's latest ERC-721 contract is being resolved.
    ResolvingContract { work_id: String, gs_path: String, now: LocalDateTime },
    /// The location of the source object is being signed.
    Signing { job: MintJob },
    /// The source object is being fetched.
    Fetching { job: MintJob },
    /// The image is being uploaded.
    UploadingImage { job: MintJob },
    /// The store is being searched for a token with the image's hash.
    CheckingDuplicate { job: MintJob, image_hash: String },
    /// The metadata document is being uploaded.
    UploadingMetadata { job: MintJob, image_hash: String, metadata: Metadata },
    /// The ledger is minting the token.
    Minting { job: MintJob, image_hash: String, metadata: Metadata, metadata_hash: String },
    /// The ledger is being asked for the id of the new token.
    ReadingTokenId { job: MintJob, image_hash: String, metadata: Metadata },
    /// The new token is being written.
    Storing,
    /// The mint has ended.
    Done,
}

/// Whether `metadata` is the document of the work `work_id` whose image has
/// the hash `image_hash`.
pub open spec fn is_metadata_for(metadata: Metadata, work_id: Seq<char>, image_hash: Seq<char>) -> bool {
    &&& metadata.name@ == work_id
    &&& metadata.description@ == "canvas nft"@
    &&& metadata.image@ == "ipfs://"@ + image_hash
}

/// What the token minted for a job holds: it belongs to the job's contract and
/// to that contract's wallet, carries the image's hash and the document's name
/// and description, and is not listed.
pub open spec fn minted_token(
    job: MintJob,
    token_id: Seq<char>,
    image_hash: Seq<char>,
    metadata: Metadata,
) -> TokenView {
    TokenView {
        address: job.contract.address@,
        token_id,
        work_id: job.work_id@,
        owner_address: job.contract.wallet_address@,
        ipfs_image_hash: image_hash,
        name: metadata.name@,
        description: metadata.description@,
        price_eth: None,
        created_at: job.now@,
    }
}

/// Whether a search by contract and image hash finds `token`.
pub open spec fn answers_search(token: TokenView, address: Seq<char>, image_hash: Seq<char>) -> bool {
    token.address == address && token.ipfs_image_hash == image_hash
}

impl NftApp {
    /// What one step of a mint is.
    ///
    /// The steps run in a fixed order: resolve the contract, sign and fetch
    /// the source, upload the image, refuse an image that was minted before,
    /// upload the metadata, mint on the ledger, read the new token's id, and
    /// only then write the token. A failure of a collaborator ends the mint
    /// with that failure; the one failure that does not is `NotFound` from the
    /// search for a duplicate, which lets the mint go on. A contract whose
    /// address or wallet the ledger cannot take ends the mint as
    /// an `Internal` failure before the ledger is called.
    pub open spec fn mint_rule(self, state: MintState, event: Event, step: Step<MintState>) -> bool {
        match (state, event) {
            (MintState::ResolvingContract { work_id, gs_path, now }, Event::Contract(Ok(contract))) => {
                &&& step.state == MintState::Signing { job: MintJob { work_id, now, contract } }
                &&& step.action matches Action::SignUrls { gs_paths } && gs_paths@ == seq![gs_path]
            },
            (MintState::Signing { job }, Event::SignedUrls(Ok(urls))) => {
                if urls@.len() == 0 {
                    step.state is Done && step.action.fails_with(Kind::Internal)
                } else {
                    &&& step.state == MintState::Fetching { job }
                    &&& step.action matches Action::Fetch { url } && url@ == urls@[0]@
                }
            },
            (MintState::Fetching { job }, Event::Source(Ok(bytes))) => {
                &&& step.state == MintState::UploadingImage { job }
                &&& step.action matches Action::UploadImage { bytes: b, name } && b == bytes
                    && name@ == job.work_id@
            },
            (MintState::UploadingImage { job }, Event::Uploaded(Ok(image))) => {
                &&& step.state == MintState::CheckingDuplicate { job, image_hash: image.hash }
                &&& step.action matches Action::FindTokenByImage { address, ipfs_image_hash }
                    && address@ == job.contract.address@ && ipfs_image_hash@ == image.hash@
            },
            (MintState::CheckingDuplicate { job, image_hash }, Event::Token(Ok(_))) => {
                &&& step.state is Done
                &&& step.action matches Action::Finish(Err(e)) && e.kind == Kind::BadRequest
                    && e.msg_view() == Some("already minted"@)
            },
            (MintState::CheckingDuplicate { job, image_hash }, Event::Token(Err(e))) => {
                if e.kind == Kind::NotFound {
                    &&& step.state matches MintState::UploadingMetadata {
                        job: j,
                        image_hash: h,
                        metadata,
                    } && j == job && h == image_hash && is_metadata_for(
                        metadata,
                        job.work_id@,
                        image_hash@,
                    )
                    &&& step.action matches Action::UploadMetadata { metadata, name }
                        && is_metadata_for(metadata, job.work_id@, image_hash@) && name@
                        == job.work_id@
                } else {
                    step.state is Done && step.action.fails_as(e)
                }
            },
            (
                MintState::UploadingMetadata { job, image_hash, metadata },
                Event::Uploaded(Ok(document)),
            ) => {
                if !mintable(job.contract) {
                    step.state is Done && step.action.fails_with(Kind::Internal)
                } else {
                    &&& step.state == MintState::Minting {
                        job,
                        image_hash,
                        metadata,
                        metadata_hash: document.hash,
                    }
                    &&& step.action matches Action::CallLedger(call) && call.transacts(
                        job.contract,
                        "mint"@,
                        seq![
                            ArgumentView::Address(job.contract.wallet_address@),
                            ArgumentView::Text(document.hash@),
                        ],
                    )
                }
            },
            (
                MintState::Minting { job, image_hash, metadata, metadata_hash },
                Event::Confirmed(Ok(_)),
            ) => {
                if !callable(job.contract) {
                    step.state is Done && step.action.fails_with(Kind::Internal)
                } else {
                    &&& step.state == MintState::ReadingTokenId { job, image_hash, metadata }
                    &&& step.action matches Action::CallLedger(call) && call.reads(
                        job.contract,
                        "tokenIdOf"@,
                        seq![ArgumentView::Text(metadata_hash@)],
                        ReturnKind::Uint,
                    )
                }
            },
            (
                MintState::ReadingTokenId { job, image_hash, metadata },
                Event::TokenId(Ok(token_id)),
            ) => {
                &&& step.state is Storing
                &&& step.action matches Action::PutToken(token) && token@ == minted_token(
                    job,
                    token_id@,
                    image_hash@,
                    metadata,
                ) && (job.now.wf() ==> token.wf())
            },
            (MintState::Storing, Event::Stored(Ok(_))) => {
                step.state is Done && step.action.succeeds()
            },
            (MintState::Done, _) => step.state is Done && step.action.fails_with(Kind::Internal),
            _ => {
                &&& step.state is Done
                &&& match failure_of(event) {
                    Some(e) => step.action.fails_as(e),
                    None => step.action.fails_with(Kind::Internal),
                }
            },
        }
    }

    /// Begins the mint of a token for the work `work_id` from the object at
    /// `gs_path`: the latest ERC-721 contract of the service's wallet is
    /// resolved first.
    pub fn mint(&self, work_id: String, gs_path: String, now: LocalDateTime) -> (step: Step<
        MintState,
    >)
        ensures
            step.state == (MintState::ResolvingContract { work_id, gs_path, now }),
            step.action matches Action::ResolveContract { wallet_address, schema }
                && wallet_address@ == self.my_wallet@ && schema == Schema::ERC721,
    {
        Step {
            state: MintState::ResolvingContract { work_id, gs_path, now },
            action: Action::ResolveContract {
                wallet_address: self.my_wallet.clone(),
                schema: Schema::ERC721,
            },
        }
    }

    /// Takes one step of a mint.
    pub fn mint_next(&self, state: MintState, event: Event) -> (step: Step<MintState>)
        ensures
            self.mint_rule(state, event, step),
    {
        match (state, event) {
            (MintState::ResolvingContract { work_id, gs_path, now }, Event::Contract(Ok(contract))) => {
                let mut gs_paths: Vec<String> = Vec::new();
                gs_paths.push(gs_path);
                assert(gs_paths@ =~= seq![gs_path]);
                Step {
                    state: MintState::Signing { job: MintJob { work_id, now, contract } },
                    action: Action::SignUrls { gs_paths },
                }
            },
            (MintState::Signing { job }, Event::SignedUrls(Ok(urls))) => {
                if urls.len() == 0 {
                    return fail_unexpected(MintState::Done);
                }
                let url = urls[0].clone();
                Step { state: MintState::Fetching { job }, action: Action::Fetch { url } }
            },
            (MintState::Fetching { job }, Event::Source(Ok(bytes))) => {
                let name = job.work_id.clone();
                Step {
                    state: MintState::UploadingImage { job },
                    action: Action::UploadImage { bytes, name },
                }
            },
            (MintState::UploadingImage { job }, Event::Uploaded(Ok(image))) => {
                let action = Action::FindTokenByImage {
                    address: job.contract.address.clone(),
                    ipfs_image_hash: image.hash.clone(),
                };
                Step { state: MintState::CheckingDuplicate { job, image_hash: image.hash }, action }
            },
            (MintState::CheckingDuplicate { job, image_hash }, Event::Token(Ok(_))) => {
                Step {
                    state: MintState::Done,
                    action: Action::Finish(Err(AppError::new(Kind::BadRequest, "already minted"))),
                }
            },
            (MintState::CheckingDuplicate { job, image_hash }, Event::Token(Err(e))) => {
                if e.kind == Kind::NotFound {
                    let image_url = join("ipfs://", image_hash.as_str());
                    let metadata = Metadata::new(
                        job.work_id.as_str(),
                        "canvas nft",
                        image_url.as_str(),
                    );
                    let action = Action::UploadMetadata {
                        metadata: metadata.clone(),
                        name: job.work_id.clone(),
                    };
                    Step { state: MintState::UploadingMetadata { job, image_hash, metadata }, action }
                } else {
                    Step { state: MintState::Done, action: Action::Finish(Err(e)) }
                }
            },
            (
                MintState::UploadingMetadata { job, image_hash, metadata },
                Event::Uploaded(Ok(document)),
            ) => {
                match self.canvas.mint(&job.contract, document.hash.clone()) {
                    Err(e) => Step { state: MintState::Done, action: Action::Finish(Err(e)) },
                    Ok(call) => Step {
                        state: MintState::Minting {
                            job,
                            image_hash,
                            metadata,
                            metadata_hash: document.hash,
                        },
                        action: Action::CallLedger(call),
                    },
                }
            },
            (
                MintState::Minting { job, image_hash, metadata, metadata_hash },
                Event::Confirmed(Ok(_)),
            ) => {
                match self.canvas.token_id_of(&job.contract, metadata_hash) {
                    Err(e) => Step { state: MintState::Done, action: Action::Finish(Err(e)) },
                    Ok(call) => Step {
                        state: MintState::ReadingTokenId { job, image_hash, metadata },
                        action: Action::CallLedger(call),
                    },
                }
            },
            (
                MintState::ReadingTokenId { job, image_hash, metadata },
                Event::TokenId(Ok(token_id)),
            ) => {
                let token = Token::new(
                    job.contract.address,
                    TokenId::new(token_id),
                    job.work_id,
                    image_hash,
                    metadata.name,
                    metadata.description,
                    job.contract.wallet_address,
                    job.now,
                );
                Step { state: MintState::Storing, action: Action::PutToken(token) }
            },
            (MintState::Storing, Event::Stored(Ok(_))) => {
                Step { state: MintState::Done, action: Action::Finish(Ok(true)) }
            },
            (MintState::Done, _) => fail_unexpected(MintState::Done),
            (_, event) => fail_from(MintState::Done, event),
        }
    }

    /// A mint whose image is already the image of a token of the contract is
    /// refused as a `BadRequest`, and nothing is written for it.
    pub proof fn lemma_mint_refuses_duplicate(
        self,
        job: MintJob,
        image_hash: String,
        existing: Token,
        step: Step<MintState>,
    )
        requires
            self.mint_rule(
                MintState::CheckingDuplicate { job, image_hash },
                Event::Token(Ok(existing)),
                step,
            ),
        ensures
            step.action.fails_with(Kind::BadRequest),
            step.state is Done,
    {
    }

    /// A token is written only when the ledger has minted it and told its id,
    /// and a mint succeeds only when that write has succeeded.
    pub proof fn lemma_mint_writes_after_ledger(
        self,
        state: MintState,
        event: Event,
        step: Step<MintState>,
    )
        requires
            self.mint_rule(state, event, step),
        ensures
            step.action is PutToken ==> state is ReadingTokenId && event matches Event::TokenId(Ok(_)),
            step.action.succeeds() ==> state is Storing && event matches Event::Stored(Ok(_)),
    {
    }

    /// The token that a mint writes belongs to the contract's wallet and is
    /// not listed.
    pub proof fn lemma_minted_token_is_stock(
        self,
        state: MintState,
        event: Event,
        step: Step<MintState>,
    )
        requires
            self.mint_rule(state, event, step),
            step.action is PutToken,
        ensures
            step.action->PutToken_0@.price_eth.is_none(),
            state matches MintState::ReadingTokenId { job, .. }
                && step.action->PutToken_0@.owner_address == job.contract.wallet_address@,
    {
    }

    /// Minting twice from the same source: the token that the first mint
    /// wrote answers the search that the second mint, for the same contract
    /// and with the same image, makes for a duplicate; and on that answer the
    /// second mint is refused as a `BadRequest`.
    pub proof fn lemma_mint_twice(
        self,
        job: MintJob,
        image: IpfsOutput,
        metadata: Metadata,
        token_id: String,
        first: Step<MintState>,
        again: MintJob,
        search: Step<MintState>,
        second: Step<MintState>,
    )
        requires
            self.mint_rule(
                MintState::ReadingTokenId { job, image_hash: image.hash, metadata },
                Event::TokenId(Ok(token_id)),
                first,
            ),
            again.contract.address@ == job.contract.address@,
            self.mint_rule(MintState::UploadingImage { job: again }, Event::Uploaded(Ok(image)), search),
            first.action is PutToken,
            self.mint_rule(search.state, Event::Token(Ok(first.action->PutToken_0)), second),
        ensures
            search.action matches Action::FindTokenByImage { address, ipfs_image_hash }
                && answers_search(first.action->PutToken_0@, address@, ipfs_image_hash@),
            second.action.fails_with(Kind::BadRequest),
            second.state is Done,
    {
    }
}

} // verus!
