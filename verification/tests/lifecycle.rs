use canvas_nft::application::mint::MintState;
use canvas_nft::application::nft::{confirmed_price, reported_price, Action, Event, NftApp, Step};
use canvas_nft::application::sell::SellState;
use canvas_nft::application::sync::SyncState;
use canvas_nft::application::transfer::TransferState;
use canvas_nft::aws::lambda::{InfoResponse, Request, Response, SellResponse};
use canvas_nft::domain::contract::{Contract, ContractId, Schema, WalletAddress};
use canvas_nft::domain::price::Price;
use canvas_nft::domain::time::LocalDateTime;
use canvas_nft::domain::token::{Token, TokenId};
use canvas_nft::errors::{AppError, Kind};
use canvas_nft::ethereum::canvas::{Argument, Canvas, LedgerCall, ReturnKind};
use canvas_nft::ethereum::{GAS_LIMIT, GAS_PRICE};
use canvas_nft::ipfs::IpfsOutput;

const AA: &str = "0x00000000000000000000000000000000000000aa";
const AB: &str = "0x00000000000000000000000000000000000000ab";
const BB: &str = "0x00000000000000000000000000000000000000bb";
const CC: &str = "0x00000000000000000000000000000000000000cc";
const DD: &str = "0x00000000000000000000000000000000000000dd";

fn arguments(call: &LedgerCall) -> Vec<(char, String)> {
    call.arguments
        .iter()
        .map(|a| match a {
            Argument::Address(v) => ('a', v.clone()),
            Argument::Uint(v) => ('u', v.clone()),
            Argument::Text(v) => ('t', v.clone()),
        })
        .collect()
}

fn now() -> LocalDateTime {
    LocalDateTime::parse("2023-04-01T12:00:00+09:00").unwrap()
}

fn app() -> NftApp {
    NftApp::new(WalletAddress::from(AA.to_string()), Canvas::new())
}

fn contract(wallet: &str) -> Contract {
    Contract::new(
        ContractId::new(AA.to_string()),
        WalletAddress::from(wallet.to_string()),
        "[]".to_string(),
        now(),
    )
}

fn token(id: &str, owner: &str, price: Option<&str>) -> Token {
    let t = Token::new(
        ContractId::new(AA.to_string()),
        TokenId::new(id.to_string()),
        "w1".to_string(),
        "QmImage".to_string(),
        "w1".to_string(),
        "canvas nft".to_string(),
        WalletAddress::from(owner.to_string()),
        now(),
    );
    match price {
        Some(p) => t.update_price(Price::parse(p).unwrap()),
        None => t,
    }
}

fn uploaded(hash: &str) -> Event {
    Event::Uploaded(Ok(IpfsOutput { name: "w1".to_string(), hash: hash.to_string() }))
}

fn sold(price: &str) -> Response {
    Response {
        result: 0,
        error_message: None,
        info_response: None,
        sell_response: Some(SellResponse { sell_price: price.to_string() }),
    }
}

fn info(price: &str) -> Response {
    Response {
        result: 0,
        error_message: None,
        info_response: Some(InfoResponse { sell_price: price.to_string() }),
        sell_response: None,
    }
}

fn failure(action: &Action) -> Kind {
    match action {
        Action::Finish(Err(e)) => e.kind,
        other => panic!("not a failure: {:?}", other),
    }
}

/// Runs a mint up to the search for a duplicate, and kind the step that
/// waits for its answer.
fn mint_until_duplicate_check(app: &NftApp) -> Step<MintState> {
    let step = app.mint("w1".to_string(), "gs://bucket/w1.png".to_string(), now());
    match &step.action {
        Action::ResolveContract { wallet_address, schema } => {
            assert_eq!(wallet_address.0, AA);
            assert_eq!(*schema, Schema::ERC721);
        }
        other => panic!("{:?}", other),
    }
    let step = app.mint_next(step.state, Event::Contract(Ok(contract(AA))));
    match &step.action {
        Action::SignUrls { gs_paths } => assert_eq!(gs_paths, &vec!["gs://bucket/w1.png".to_string()]),
        other => panic!("{:?}", other),
    }
    let step = app.mint_next(step.state, Event::SignedUrls(Ok(vec!["https://signed/1".to_string()])));
    match &step.action {
        Action::Fetch { url } => assert_eq!(url, "https://signed/1"),
        other => panic!("{:?}", other),
    }
    let step = app.mint_next(step.state, Event::Source(Ok(vec![1, 2, 3])));
    match &step.action {
        Action::UploadImage { bytes, name } => {
            assert_eq!(bytes, &vec![1, 2, 3]);
            assert_eq!(name, "w1");
        }
        other => panic!("{:?}", other),
    }
    let step = app.mint_next(step.state, uploaded("QmImage"));
    match &step.action {
        Action::FindTokenByImage { address, ipfs_image_hash } => {
            assert_eq!(address.as_str(), AA);
            assert_eq!(ipfs_image_hash, "QmImage");
        }
        other => panic!("{:?}", other),
    }
    step
}

#[test]
fn mint_writes_an_unlisted_token_owned_by_the_contract_wallet() {
    let app = app();
    let step = mint_until_duplicate_check(&app);
    let step = app.mint_next(step.state, Event::Token(Err(AppError::not_found())));
    match &step.action {
        Action::UploadMetadata { metadata, name } => {
            assert_eq!(metadata.name, "w1");
            assert_eq!(metadata.description, "canvas nft");
            assert_eq!(metadata.image, "ipfs://QmImage");
            assert_eq!(name, "w1");
        }
        other => panic!("{:?}", other),
    }
    let step = app.mint_next(step.state, uploaded("QmMeta"));
    match &step.action {
        Action::CallLedger(call) => {
            assert_eq!(call.address, AA);
            assert_eq!(call.abi, "[]");
            assert_eq!(call.method, "mint");
            assert_eq!(arguments(call), vec![('a', AA.to_string()), ('t', "QmMeta".to_string())]);
            assert_eq!(call.gas, Some(8000000));
            assert_eq!(call.gas_price, Some(25000000000));
        }
        other => panic!("{:?}", other),
    }
    let step = app.mint_next(step.state, Event::Confirmed(Ok(())));
    match &step.action {
        Action::CallLedger(call) => {
            assert_eq!(call.address, AA);
            assert_eq!(call.method, "tokenIdOf");
            assert_eq!(arguments(call), vec![('t', "QmMeta".to_string())]);
            assert_eq!(call.gas, None);
            assert_eq!(call.gas_price, None);
        }
        other => panic!("{:?}", other),
    }
    let step = app.mint_next(step.state, Event::TokenId(Ok("1".to_string())));
    match &step.action {
        Action::PutToken(token) => {
            assert!(token.price_eth.is_none());
            assert_eq!(token.owner_address.0, AA);
            assert_eq!(token.address.as_str(), AA);
            assert_eq!(token.token_id.as_str(), "1");
            assert_eq!(token.work_id, "w1");
            assert_eq!(token.ipfs_image_hash, "QmImage");
            assert_eq!(token.name, "w1");
            assert_eq!(token.description, "canvas nft");
            assert_eq!(token.created_at.to_rfc3339(), "2023-04-01T12:00:00+09:00");
        }
        other => panic!("{:?}", other),
    }
    let step = app.mint_next(step.state, Event::Stored(Ok(())));
    assert!(matches!(step.action, Action::Finish(Ok(true))));
    assert!(matches!(step.state, MintState::Done));
}

#[test]
fn second_mint_of_the_same_source_is_a_bad_request() {
    let app = app();
    let step = mint_until_duplicate_check(&app);
    let step = app.mint_next(step.state, Event::Token(Ok(token("1", AA, None))));
    assert_eq!(failure(&step.action), Kind::BadRequest);
    match &step.action {
        Action::Finish(Err(e)) => assert_eq!(e.msg.as_deref(), Some("already minted")),
        other => panic!("{:?}", other),
    }
    assert!(matches!(step.state, MintState::Done));
}

#[test]
fn mint_without_a_contract_is_not_found() {
    let app = app();
    let step = app.mint("w1".to_string(), "gs://b/o".to_string(), now());
    let step = app.mint_next(step.state, Event::Contract(Err(AppError::not_found())));
    assert_eq!(failure(&step.action), Kind::NotFound);
}

#[test]
fn mint_stops_at_the_first_failure_and_writes_nothing() {
    let app = app();
    let step = mint_until_duplicate_check(&app);
    let step = app.mint_next(step.state, Event::Token(Err(AppError::new(Kind::Internal, "store down"))));
    match &step.action {
        Action::Finish(Err(e)) => {
            assert_eq!(e.kind, Kind::Internal);
            assert_eq!(e.msg.as_deref(), Some("store down"));
        }
        other => panic!("{:?}", other),
    }
    let step = mint_until_duplicate_check(&app);
    let step = app.mint_next(step.state, Event::Token(Err(AppError::not_found())));
    let step = app.mint_next(step.state, uploaded("QmMeta"));
    let step = app.mint_next(step.state, Event::Confirmed(Err(AppError::new(Kind::Internal, "ledger"))));
    assert_eq!(failure(&step.action), Kind::Internal);
    let step = app.mint_next(step.state, Event::Stored(Ok(())));
    assert_eq!(failure(&step.action), Kind::Internal);
}

#[test]
fn mint_fails_when_no_location_was_signed() {
    let app = app();
    let step = app.mint("w1".to_string(), "gs://b/o".to_string(), now());
    let step = app.mint_next(step.state, Event::Contract(Ok(contract(AA))));
    let step = app.mint_next(step.state, Event::SignedUrls(Ok(Vec::new())));
    assert_eq!(failure(&step.action), Kind::Internal);
}

#[test]
fn mint_refuses_an_event_that_it_does_not_wait_for() {
    let app = app();
    let step = app.mint("w1".to_string(), "gs://b/o".to_string(), now());
    let step = app.mint_next(step.state, Event::Stored(Ok(())));
    assert_eq!(failure(&step.action), Kind::Internal);
}

fn sell_until_token(app: &NftApp, price: &str) -> Step<SellState> {
    let step = app.sell(
        ContractId::new(AA.to_string()),
        TokenId::new("1".to_string()),
        Price::parse(price).unwrap(),
    );
    match &step.action {
        Action::LoadContract { address } => assert_eq!(address.as_str(), AA),
        other => panic!("{:?}", other),
    }
    let step = app.sell_next(step.state, Event::Contract(Ok(contract(AA))));
    match &step.action {
        Action::LoadToken { address, token_id } => {
            assert_eq!(address.as_str(), AA);
            assert_eq!(token_id.as_str(), "1");
        }
        other => panic!("{:?}", other),
    }
    step
}

#[test]
fn sell_stores_the_price_that_the_marketplace_confirmed() {
    let app = app();
    let step = sell_until_token(&app, "1.5");
    let step = app.sell_next(step.state, Event::Token(Ok(token("1", AA, None))));
    match &step.action {
        Action::AskMarketplace(Request { method, info_request, sell_request }) => {
            assert_eq!(method, "sell");
            assert!(info_request.is_none());
            let r = sell_request.as_ref().unwrap();
            assert_eq!(r.token_address, AA);
            assert_eq!(r.token_id, "1");
            assert_eq!(r.ether.to_string(), "1.5");
            assert_eq!(r.quantity, 1);
            assert_eq!(r.schema, "ERC721");
        }
        other => panic!("{:?}", other),
    }
    let step = app.sell_next(step.state, Event::Marketplace(Ok(sold("1.4"))));
    match &step.action {
        Action::PutToken(token) => {
            assert_eq!(token.price_eth.as_ref().unwrap().to_string(), "1.4");
            assert_eq!(token.owner_address.0, AA);
            assert_eq!(token.token_id.as_str(), "1");
        }
        other => panic!("{:?}", other),
    }
    let step = app.sell_next(step.state, Event::Stored(Ok(())));
    assert!(matches!(step.action, Action::Finish(Ok(true))));
}

#[test]
fn sell_of_a_token_held_by_another_wallet_is_forbidden() {
    let app = app();
    let step = sell_until_token(&app, "1.5");
    let step = app.sell_next(step.state, Event::Token(Ok(token("1", BB, None))));
    assert_eq!(failure(&step.action), Kind::Forbidden);
    assert!(matches!(step.state, SellState::Done));
}

#[test]
fn sell_under_a_contract_of_another_wallet_is_forbidden() {
    let app = app();
    let step = app.sell(ContractId::new(AA.to_string()), TokenId::new("1".to_string()), Price::parse("1").unwrap());
    let step = app.sell_next(step.state, Event::Contract(Ok(contract(CC))));
    let step = app.sell_next(step.state, Event::Token(Ok(token("1", CC, None))));
    assert_eq!(failure(&step.action), Kind::Forbidden);
}

#[test]
fn sell_at_a_price_that_is_not_positive_is_a_bad_request() {
    for price in ["0", "0.00", "-1"] {
        let app = app();
        let step = sell_until_token(&app, price);
        let step = app.sell_next(step.state, Event::Token(Ok(token("1", AA, None))));
        assert_eq!(failure(&step.action), Kind::BadRequest, "{}", price);
    }
}

#[test]
fn sell_fails_on_a_marketplace_failure() {
    let app = app();
    for resp in [
        Response { result: 1, ..sold("1.4") },
        Response { sell_response: None, ..sold("1.4") },
        sold("a lot"),
        info("1.4"),
    ] {
        let step = sell_until_token(&app, "1.5");
        let step = app.sell_next(step.state, Event::Token(Ok(token("1", AA, None))));
        let step = app.sell_next(step.state, Event::Marketplace(Ok(resp)));
        assert_eq!(failure(&step.action), Kind::Internal);
    }
    let step = sell_until_token(&app, "1.5");
    let step = app.sell_next(step.state, Event::Token(Err(AppError::not_found())));
    assert_eq!(failure(&step.action), Kind::NotFound);
}

#[test]
fn transfer_moves_the_token_and_clears_the_price() {
    let app = app();
    let step = app.transfer(
        ContractId::new(AA.to_string()),
        TokenId::new("1".to_string()),
        WalletAddress::from(BB.to_string()),
    );
    assert!(matches!(step.action, Action::LoadContract { .. }));
    let step = app.transfer_next(step.state, Event::Contract(Ok(contract(AA))));
    assert!(matches!(step.action, Action::LoadToken { .. }));
    let step = app.transfer_next(step.state, Event::Token(Ok(token("1", AA, Some("1.4")))));
    match &step.action {
        Action::CallLedger(call) => {
            assert_eq!(call.address, AA);
            assert_eq!(call.method, "safeTransferFrom");
            assert_eq!(
                arguments(call),
                vec![('a', AA.to_string()), ('a', BB.to_string()), ('u', "1".to_string())]
            );
            assert_eq!(call.gas, Some(GAS_LIMIT));
            assert_eq!(call.gas_price, Some(GAS_PRICE));
        }
        other => panic!("{:?}", other),
    }
    let step = app.transfer_next(step.state, Event::Confirmed(Ok(())));
    match &step.action {
        Action::PutToken(token) => {
            assert_eq!(token.owner_address.0, BB);
            assert!(token.price_eth.is_none());
            assert_eq!(token.token_id.as_str(), "1");
        }
        other => panic!("{:?}", other),
    }
    let step = app.transfer_next(step.state, Event::Stored(Ok(())));
    assert!(matches!(step.action, Action::Finish(Ok(true))));
    assert!(matches!(step.state, TransferState::Done));
}

#[test]
fn transfer_of_a_token_held_by_another_wallet_is_forbidden() {
    let app = app();
    let step = app.transfer(
        ContractId::new(AA.to_string()),
        TokenId::new("1".to_string()),
        WalletAddress::from(BB.to_string()),
    );
    let step = app.transfer_next(step.state, Event::Contract(Ok(contract(AA))));
    let step = app.transfer_next(step.state, Event::Token(Ok(token("1", DD, None))));
    assert_eq!(failure(&step.action), Kind::Forbidden);
}

#[test]
fn transfer_writes_nothing_when_the_ledger_fails() {
    let app = app();
    let step = app.transfer(
        ContractId::new(AA.to_string()),
        TokenId::new("1".to_string()),
        WalletAddress::from(BB.to_string()),
    );
    let step = app.transfer_next(step.state, Event::Contract(Ok(contract(AA))));
    let step = app.transfer_next(step.state, Event::Token(Ok(token("1", AA, None))));
    let step = app.transfer_next(step.state, Event::Confirmed(Err(AppError::new(Kind::Internal, "reverted"))));
    match &step.action {
        Action::Finish(Err(e)) => assert_eq!(e.msg.as_deref(), Some("reverted")),
        other => panic!("{:?}", other),
    }
}

#[test]
fn authorize_needs_contract_owner_and_token_holder() {
    let app = app();
    assert!(app.authorize(&contract(AA), &token("1", AA, None)).is_ok());
    assert_eq!(app.authorize(&contract(AA), &token("1", BB, None)).unwrap_err().kind, Kind::Forbidden);
    assert_eq!(app.authorize(&contract(BB), &token("1", BB, None)).unwrap_err().kind, Kind::Forbidden);
    assert_eq!(app.authorize(&contract(BB), &token("1", AA, None)).unwrap_err().kind, Kind::Forbidden);
}

#[test]
fn marketplace_answers_are_read_strictly() {
    assert_eq!(confirmed_price(&sold("1.4")).unwrap().to_string(), "1.4");
    assert_eq!(confirmed_price(&sold("0")).unwrap().to_string(), "0");
    assert_eq!(confirmed_price(&info("1.4")).unwrap_err().kind, Kind::Internal);
    assert_eq!(confirmed_price(&Response { result: 2, ..sold("1.4") }).unwrap_err().kind, Kind::Internal);
    assert_eq!(confirmed_price(&sold("")).unwrap_err().kind, Kind::Internal);
    assert_eq!(reported_price(&info("2.5")).unwrap().unwrap().to_string(), "2.5");
    assert!(reported_price(&info("0")).unwrap().is_none());
    assert!(reported_price(&info("0.0")).unwrap().is_none());
    assert!(reported_price(&info("-1")).unwrap().is_none());
    assert_eq!(reported_price(&info("1e-7")).unwrap().unwrap().to_string(), "1e-7");
    assert!(reported_price(&info("0e3")).unwrap().is_none());
    assert_eq!(confirmed_price(&sold("2.5E-1")).unwrap().to_string(), "2.5E-1");
    assert_eq!(reported_price(&sold("1")).unwrap_err().kind, Kind::Internal);
    assert_eq!(reported_price(&info("free")).unwrap_err().kind, Kind::Internal);
    assert_eq!(reported_price(&Response { result: -1, ..info("1") }).unwrap_err().kind, Kind::Internal);
    assert!(Response { result: 0, ..info("1") }.accept().is_ok());
    assert_eq!(Response { result: 3, ..info("1") }.accept().unwrap_err().kind, Kind::Internal);
}

#[test]
fn sync_overwrites_every_token_with_ledger_and_marketplace() {
    let app = app();
    let step = app.sync();
    assert!(matches!(step.action, Action::ListContracts));
    let second = Contract::new(
        ContractId::new(AB.to_string()),
        WalletAddress::from(AA.to_string()),
        "[]".to_string(),
        now(),
    );
    let step = app.sync_next(step.state, Event::Contracts(Ok(vec![contract(AA), second])));
    match &step.action {
        Action::ListTokens { address } => assert_eq!(address.as_str(), AA),
        other => panic!("{:?}", other),
    }
    let tokens = vec![token("1", AA, Some("1.4")), token("2", AA, None)];
    let step = app.sync_next(step.state, Event::Tokens(Ok(tokens)));
    match &step.action {
        Action::CallLedger(call) => {
            assert_eq!(call.address, AA);
            assert_eq!(call.method, "ownerOf");
            assert_eq!(arguments(call), vec![('u', "1".to_string())]);
            assert_eq!(call.gas, None);
        }
        other => panic!("{:?}", other),
    }
    let step = app.sync_next(step.state, Event::Owner(Ok(BB.to_string())));
    match &step.action {
        Action::AskMarketplace(Request { method, info_request, sell_request }) => {
            assert_eq!(method, "info");
            assert!(sell_request.is_none());
            let r = info_request.as_ref().unwrap();
            assert_eq!(r.token_address, AA);
            assert_eq!(r.token_id, "1");
        }
        other => panic!("{:?}", other),
    }
    let step = app.sync_next(step.state, Event::Marketplace(Ok(info("0"))));
    match &step.action {
        Action::PutToken(token) => {
            assert_eq!(token.token_id.as_str(), "1");
            assert_eq!(token.owner_address.0, BB);
            assert!(token.price_eth.is_none());
        }
        other => panic!("{:?}", other),
    }
    let step = app.sync_next(step.state, Event::Stored(Ok(())));
    match &step.action {
        Action::CallLedger(call) => assert_eq!(arguments(call), vec![('u', "2".to_string())]),
        other => panic!("{:?}", other),
    }
    let step = app.sync_next(step.state, Event::Owner(Ok(AA.to_string())));
    let step = app.sync_next(step.state, Event::Marketplace(Ok(info("2.5"))));
    match &step.action {
        Action::PutToken(token) => {
            assert_eq!(token.token_id.as_str(), "2");
            assert_eq!(token.owner_address.0, AA);
            assert_eq!(token.price_eth.as_ref().unwrap().to_string(), "2.5");
        }
        other => panic!("{:?}", other),
    }
    let step = app.sync_next(step.state, Event::Stored(Ok(())));
    match &step.action {
        Action::ListTokens { address } => assert_eq!(address.as_str(), AB),
        other => panic!("{:?}", other),
    }
    let step = app.sync_next(step.state, Event::Tokens(Ok(Vec::new())));
    assert!(matches!(step.action, Action::Finish(Ok(true))));
    assert!(matches!(step.state, SyncState::Done));
}

#[test]
fn sync_without_contracts_ends_at_once() {
    let app = app();
    let step = app.sync();
    let step = app.sync_next(step.state, Event::Contracts(Ok(Vec::new())));
    assert!(matches!(step.action, Action::Finish(Ok(true))));
}

#[test]
fn sync_aborts_at_the_first_marketplace_failure() {
    let app = app();
    let step = app.sync();
    let step = app.sync_next(step.state, Event::Contracts(Ok(vec![contract(AA)])));
    let step = app.sync_next(step.state, Event::Tokens(Ok(vec![token("1", AA, None), token("2", AA, None)])));
    let step = app.sync_next(step.state, Event::Owner(Ok(AA.to_string())));
    let step = app.sync_next(step.state, Event::Marketplace(Ok(Response { result: 1, ..info("1") })));
    assert_eq!(failure(&step.action), Kind::Internal);
    assert!(matches!(step.state, SyncState::Done));
}

#[test]
fn sync_refuses_a_state_out_of_bounds() {
    let app = app();
    let state = SyncState::ListingTokens { contracts: Vec::new(), at: 0 };
    let step = app.sync_next(state, Event::Tokens(Ok(Vec::new())));
    assert_eq!(failure(&step.action), Kind::Internal);
}

#[test]
fn transfer_of_a_token_without_a_ledger_id_is_an_internal_failure() {
    let app = app();
    let step = app.transfer(
        ContractId::new(AA.to_string()),
        TokenId::new("one".to_string()),
        WalletAddress::from(BB.to_string()),
    );
    let step = app.transfer_next(step.state, Event::Contract(Ok(contract(AA))));
    let step = app.transfer_next(step.state, Event::Token(Ok(token("one", AA, None))));
    assert_eq!(failure(&step.action), Kind::Internal);
    let step = app.transfer(
        ContractId::new(AA.to_string()),
        TokenId::new("1".to_string()),
        WalletAddress::from("nobody".to_string()),
    );
    let step = app.transfer_next(step.state, Event::Contract(Ok(contract(AA))));
    let step = app.transfer_next(step.state, Event::Token(Ok(token("1", AA, None))));
    assert_eq!(failure(&step.action), Kind::Internal);
}

#[test]
fn sync_fails_on_a_token_id_that_is_no_number() {
    let app = app();
    let step = app.sync();
    let step = app.sync_next(step.state, Event::Contracts(Ok(vec![contract(AA)])));
    let step = app.sync_next(step.state, Event::Tokens(Ok(vec![token("x1", AA, None)])));
    assert_eq!(failure(&step.action), Kind::Internal);
}

#[test]
fn ledger_reads_carry_no_gas() {
    let canvas = Canvas::new();
    let c = contract(AA);
    let name = canvas.name(&c).unwrap();
    assert_eq!(name.method, "name");
    assert_eq!(name.kind, ReturnKind::Text);
    assert_eq!(name.address, AA);
    assert_eq!(name.abi, "[]");
    assert!(name.arguments.is_empty());
    assert_eq!((name.gas, name.gas_price), (None, None));
    let owner = canvas.owner_of(&c, &TokenId::new("42".to_string())).unwrap();
    assert_eq!(owner.method, "ownerOf");
    assert_eq!(owner.kind, ReturnKind::Address);
    assert_eq!(arguments(&owner), vec![('u', "42".to_string())]);
    assert_eq!((owner.gas, owner.gas_price), (None, None));
    let id = canvas.token_id_of(&c, "QmMeta".to_string()).unwrap();
    assert_eq!(id.method, "tokenIdOf");
    assert_eq!(id.kind, ReturnKind::Uint);
    assert_eq!(arguments(&id), vec![('t', "QmMeta".to_string())]);
}

#[test]
fn ledger_transactions_carry_the_fixed_gas() {
    let canvas = Canvas::new();
    let c = contract(AA);
    let mint = canvas.mint(&c, "QmMeta".to_string()).unwrap();
    assert_eq!(mint.method, "mint");
    assert_eq!(mint.kind, ReturnKind::Receipt);
    assert_eq!(arguments(&mint), vec![('a', AA.to_string()), ('t', "QmMeta".to_string())]);
    assert_eq!((mint.gas, mint.gas_price), (Some(8000000), Some(25000000000)));
    let mv = canvas.transfer(&c, &token("7", AA, None), WalletAddress::from(BB.to_string())).unwrap();
    assert_eq!(mv.method, "safeTransferFrom");
    assert_eq!(mv.kind, ReturnKind::Receipt);
    assert_eq!(arguments(&mv), vec![('a', AA.to_string()), ('a', BB.to_string()), ('u', "7".to_string())]);
    assert_eq!((mv.gas, mv.gas_price), (Some(GAS_LIMIT), Some(GAS_PRICE)));
}

#[test]
fn ledger_calls_are_refused_for_values_that_the_ledger_cannot_take() {
    let canvas = Canvas::new();
    let good = contract(AA);
    let max = "115792089237316195423570985008687907853269984665640564039457584007913129639935";
    let over = "115792089237316195423570985008687907853269984665640564039457584007913129639936";
    assert!(canvas.owner_of(&good, &TokenId::new(max.to_string())).is_ok());
    assert!(canvas.owner_of(&good, &TokenId::new("007".to_string())).is_ok());
    assert!(canvas.owner_of(&good, &TokenId::new(String::new())).is_ok());
    for id in [over, "-1", "1.0", "0x10", "1 ", "１"] {
        let e = canvas.owner_of(&good, &TokenId::new(id.to_string())).unwrap_err();
        assert_eq!(e.kind, Kind::Internal, "{}", id);
    }
    let short = Contract::new(
        ContractId::new("0xAA".to_string()),
        WalletAddress::from(AA.to_string()),
        "[]".to_string(),
        now(),
    );
    assert_eq!(canvas.name(&short).unwrap_err().kind, Kind::Internal);
    assert_eq!(canvas.mint(&short, "Qm".to_string()).unwrap_err().kind, Kind::Internal);
    let any_interface = Contract::new(
        ContractId::new(AA.to_string()),
        WalletAddress::from(AA.to_string()),
        "not an interface".to_string(),
        now(),
    );
    assert_eq!(canvas.name(&any_interface).unwrap().abi, "not an interface");
    let no_wallet = contract("somebody");
    assert!(canvas.name(&no_wallet).is_ok());
    assert_eq!(canvas.mint(&no_wallet, "Qm".to_string()).unwrap_err().kind, Kind::Internal);
    let e = canvas.transfer(&good, &token("1", AA, None), WalletAddress::from("0x12".to_string())).unwrap_err();
    assert_eq!(e.kind, Kind::Internal);
    let with_interface = Contract::new(
        ContractId::new(AA.to_string()),
        WalletAddress::from(AA.to_string()),
        r#"[{"type":"function","name":"name","inputs":[],"outputs":[{"name":"","type":"string"}],"stateMutability":"view"}]"#
            .to_string(),
        now(),
    );
    assert!(canvas.name(&with_interface).is_ok());
}

#[test]
fn addresses_are_forty_hex_digits_with_an_optional_prefix() {
    let canvas = Canvas::new();
    let at = |address: &str| {
        canvas.name(&Contract::new(
            ContractId::new(address.to_string()),
            WalletAddress::from(AA.to_string()),
            "[]".to_string(),
            now(),
        ))
    };
    assert!(at("0x00000000000000000000000000000000000000aa").is_ok());
    assert!(at("00000000000000000000000000000000000000aa").is_ok());
    assert!(at("0xABCDEFabcdef0123456789ABCDEFabcdef012345").is_ok());
    assert!(at("0x0000000000 0000000000\t0000000000\n00000000aa\r").is_ok());
    for bad in [
        "",
        "0x",
        "0xAA",
        "0x00000000000000000000000000000000000000a",
        "0x00000000000000000000000000000000000000aaa",
        "0x00000000000000000000000000000000000000aa00",
        "0X00000000000000000000000000000000000000aa",
        " 0x00000000000000000000000000000000000000aa",
        "0x0x000000000000000000000000000000000000aa",
        "0x00000000000000000000000000000000000000ag",
        "0x00000000000000000000000000000000000000\u{ff41}a",
    ] {
        assert_eq!(at(bad).unwrap_err().kind, Kind::Internal, "{:?}", bad);
    }
}
