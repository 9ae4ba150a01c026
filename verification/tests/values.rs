use canvas_nft::ddb::{MustPresent, ParseFromRfc3339};
use canvas_nft::domain::contract::{Network, Schema};
use canvas_nft::domain::price::{scan, Price};
use canvas_nft::domain::time::LocalDateTime;
use canvas_nft::errors::{AppError, Kind};
use canvas_nft::graph::errors::Error;
use canvas_nft::graph::mutation::{MintInput, Route, TransferInput};
use canvas_nft::graph::types;
use canvas_nft::graph::Authorized;
use canvas_nft::internal_api::{decode_body, encode_body};
use canvas_nft::aws::sns::Task;
use canvas_nft::open_sea::metadata::Metadata;

#[test]
fn price_accepts_plain_decimals() {
    for text in ["0", "1", "1.4", "0.000001", "-3", "-0.5", "100.00"] {
        let p = Price::parse(text).unwrap();
        assert_eq!(p.to_string(), text);
    }
}

#[test]
fn price_accepts_sign_bare_point_and_exponent() {
    for text in ["+1", "1.", ".5", "-.5", "1e5", "1E5", "1e-7", "1.5e+3", "0.e0", ".0E-10", "+1.e+1"] {
        let p = Price::parse(text).unwrap();
        assert_eq!(p.to_string(), text);
    }
}

#[test]
fn price_refuses_what_is_not_a_decimal() {
    for text in [
        "", "-", "+", ".", "+.", "1..2", "1.2.3", "abc", " 1", "1 ", "--1", "+-1", "1-", "１", "e5", ".e5", "1e",
        "1e+", "1e-", "1e5.0", "1e5e5", "1e 5", "1e++5", "inf", "infinity", "nan", "NaN", "0x10", "1,5",
    ] {
        assert!(Price::parse(text).is_none(), "{}", text);
    }
}

#[test]
fn price_is_positive_only_above_zero() {
    for text in ["1.4", "0.001", "10", "+0.1", ".5", "1e-7", "1E5", "0.0001e0", "5.e-3"] {
        assert!(Price::parse(text).unwrap().is_positive(), "{}", text);
    }
    for text in ["0", "0.000", "-1.4", "-0", "+0", "0e5", "0.0e9", ".0", "-1e5", "-.5", "0e0"] {
        assert!(!Price::parse(text).unwrap().is_positive(), "{}", text);
    }
}

#[test]
fn scan_classifies_in_one_pass() {
    let a = scan("1.50");
    assert!(a.decimal && a.positive);
    let b = scan("-1.50");
    assert!(b.decimal && !b.positive);
    let c = scan("1.5x");
    assert!(!c.decimal && !c.positive);
}

#[test]
fn date_time_accepts_rfc3339_and_keeps_the_text() {
    let t = LocalDateTime::parse("2023-04-01T12:00:00+09:00").unwrap();
    assert_eq!(t.to_rfc3339(), "2023-04-01T12:00:00+09:00");
    let z = LocalDateTime::parse("1996-12-19T16:39:57Z").unwrap();
    assert_eq!(z.to_rfc3339(), "1996-12-19T16:39:57Z");
}

#[test]
fn date_time_refuses_other_text() {
    assert!(LocalDateTime::parse("").is_none());
    assert!(LocalDateTime::parse("2023-04-01").is_none());
    assert!(LocalDateTime::parse("2023-13-01T00:00:00Z").is_none());
    assert!(LocalDateTime::parse("yesterday").is_none());
    assert!(LocalDateTime::parse("2023-04-01T12:00:00").is_none());
}

#[test]
fn parse_from_rfc3339_tells_why_it_refuses() {
    let ok = LocalDateTime::parse_from_rfc3339("2023-04-01T12:00:00+09:00").unwrap();
    assert_eq!(ok.to_rfc3339(), "2023-04-01T12:00:00+09:00");
    let err = LocalDateTime::parse_from_rfc3339("nope").unwrap_err();
    assert!(!err.is_empty());
}

#[test]
fn must_present_complains_of_a_missing_field() {
    assert_eq!(Some(3).must_present(), Ok(3));
    assert_eq!(None::<i32>.must_present(), Err("missing field".to_string()));
}

#[test]
fn schema_and_network_round_trip_through_their_names() {
    assert_eq!(Schema::ERC721.to_string(), "ERC721");
    assert_eq!(Schema::ERC1155.to_string(), "ERC1155");
    assert_eq!(Schema::from_str("ERC721"), Some(Schema::ERC721));
    assert_eq!(Schema::from_str("ERC1155"), Some(Schema::ERC1155));
    assert_eq!(Schema::from_str("erc721"), None);
    assert_eq!(Schema::from_str(""), None);
    assert_eq!(Network::Avalanche.to_string(), "Avalanche");
    assert_eq!(Network::from_str("Avalanche"), Some(Network::Avalanche));
    assert_eq!(Network::from_str("Ethereum"), None);
}

#[test]
fn error_constructors_set_kind_and_message() {
    let e = AppError::new(Kind::Forbidden, "no");
    assert_eq!(e.kind, Kind::Forbidden);
    assert_eq!(e.msg, Some("no".to_string()));
    assert_eq!(AppError::internal().kind, Kind::Internal);
    assert_eq!(AppError::internal().msg, None);
    assert_eq!(AppError::not_found().kind, Kind::NotFound);
    assert_eq!(AppError::bad_request().kind, Kind::BadRequest);
    assert_eq!(AppError::un_authorized().kind, Kind::Unauthorized);
    assert_eq!(AppError::forbidden().kind, Kind::Forbidden);
    let m = AppError::from_message("boom".to_string());
    assert_eq!(m.kind, Kind::Internal);
    assert_eq!(m.msg, Some("boom".to_string()));
    let gone = AppError::from_lookup_failure(true, "no such table".to_string());
    assert_eq!(gone.kind, Kind::NotFound);
    assert_eq!(gone.msg, Some("no such table".to_string()));
    let down = AppError::from_lookup_failure(false, "timeout".to_string());
    assert_eq!(down.kind, Kind::Internal);
    assert_eq!(down.msg, Some("timeout".to_string()));
}

#[test]
fn kinds_render_as_their_names() {
    assert_eq!(Kind::BadRequest.to_string(), "BadRequest");
    assert_eq!(Kind::Unauthorized.to_string(), "Unauthorized");
    assert_eq!(Kind::Forbidden.to_string(), "Forbidden");
    assert_eq!(Kind::NotFound.to_string(), "NotFound");
    assert_eq!(Kind::Internal.to_string(), "Internal");
}

#[test]
fn failures_are_shown_with_code_and_message() {
    let shown = Error::from(AppError::new(Kind::Unauthorized, "bad signature"));
    assert_eq!(shown.code, "UnAuthorized");
    assert_eq!(shown.message, "bad signature");
    let bare = Error::from(AppError::not_found());
    assert_eq!(bare.code, "NotFound");
    assert_eq!(bare.message, "");
    assert_eq!(Error::from(AppError::bad_request()).code, "BadRequest");
    assert_eq!(Error::from(AppError::forbidden()).code, "Forbidden");
    assert_eq!(Error::from(AppError::internal()).code, "Internal");
    let made = Error::new("X".to_string(), "y".to_string());
    assert_eq!(made.code, "X");
    assert_eq!(made.message, "y");
}

#[test]
fn a_request_without_signature_is_unauthorized() {
    assert_eq!(Authorized::check(None).unwrap_err().kind, Kind::Unauthorized);
    let failed = Authorized::check(Some(Err(AppError::un_authorized()))).unwrap_err();
    assert_eq!(failed.kind, Kind::Unauthorized);
    assert!(Authorized::check(Some(Ok(()))).is_ok());
}

#[test]
fn mutations_are_queued_only_when_asked() {
    let queued = MintInput { work_id: "w1".into(), gs_path: "gs://b/o".into(), is_async: true }.route();
    match queued {
        Route::Queued(Task::Mint(p)) => {
            assert_eq!(p.work_id, "w1");
            assert_eq!(p.gs_path, "gs://b/o");
        }
        _ => panic!("not queued"),
    }
    let now = MintInput { work_id: "w1".into(), gs_path: "gs://b/o".into(), is_async: false }.route();
    assert!(matches!(now, Route::Now(_)));
    let moved = TransferInput {
        address: "0xAA".into(),
        token_id: "1".into(),
        to_address: "0xBB".into(),
        is_async: true,
    }
    .route();
    match moved {
        Route::Queued(Task::Transfer(p)) => {
            assert_eq!(p.address, "0xAA");
            assert_eq!(p.token_id, "1");
            assert_eq!(p.to_address, "0xBB");
        }
        _ => panic!("not queued"),
    }
}

#[test]
fn metadata_holds_what_it_is_given() {
    let m = Metadata::new("w1", "canvas nft", "ipfs://Qm1");
    assert_eq!(m.name, "w1");
    assert_eq!(m.description, "canvas nft");
    assert_eq!(m.image, "ipfs://Qm1");
}

#[test]
fn frames_carry_flag_length_and_message() {
    assert_eq!(encode_body(&vec![]).unwrap(), vec![0, 0, 0, 0, 0]);
    assert_eq!(encode_body(&vec![7, 8, 9]).unwrap(), vec![0, 0, 0, 0, 3, 7, 8, 9]);
    let long = vec![1u8; 0x10203];
    let framed = encode_body(&long).unwrap();
    assert_eq!(&framed[..5], &[0, 0, 1, 2, 3]);
    assert_eq!(framed.len(), 0x10203 + 5);
    assert_eq!(decode_body(&framed).unwrap(), long);
    assert_eq!(decode_body(&vec![0, 0, 0, 0, 2, 5, 6, 0x80, 0, 0, 0, 0]).unwrap(), vec![5, 6]);
    assert_eq!(decode_body(&vec![1, 0, 0, 0, 0]).unwrap(), Vec::<u8>::new());
}

#[test]
fn frames_that_are_cut_short_are_refused() {
    assert_eq!(decode_body(&vec![]).unwrap_err().kind, Kind::NotFound);
    assert_eq!(decode_body(&vec![0, 0, 0]).unwrap_err().kind, Kind::Internal);
    assert_eq!(decode_body(&vec![0, 0, 0, 0, 3, 1, 2]).unwrap_err().kind, Kind::Internal);
    assert_eq!(decode_body(&vec![0, 255, 255, 255, 255, 1]).unwrap_err().kind, Kind::Internal);
}

#[test]
fn notices_name_the_task_and_its_token() {
    let mint = Task::Mint(canvas_nft::aws::sns::MintPayload { work_id: "w1".into(), gs_path: "gs://b/o".into() });
    let n = mint.notice();
    assert_eq!(n.push, "the token has been minted");
    assert_eq!(n.subject, "Notice from Canvas");
    assert_eq!(n.body, "the token has been minted");
    let sell = Task::Sell(canvas_nft::aws::sns::SellPayload {
        address: "0xAA".into(),
        token_id: "1".into(),
        ether: Price::parse("1.5").unwrap(),
    });
    let n = sell.notice();
    assert_eq!(n.push, "the sell order has been placed");
    assert_eq!(n.body, "the sell order has been placed: 0xAA#1");
    let moved = Task::Transfer(canvas_nft::aws::sns::TransferPayload {
        address: "0xAA".into(),
        token_id: "2".into(),
        to_address: "0xBB".into(),
    });
    let n = moved.notice();
    assert_eq!(n.push, "the token has been transferred");
    assert_eq!(n.body, "the token has been transferred: 0xAA#2");
}

#[test]
fn contract_create_input_registers_an_erc721_contract_of_the_wallet() {
    let input = canvas_nft::graph::mutation::ContractCreateInput { address: "0xAA".into(), abi: "[]".into() };
    let c = input.contract(
        canvas_nft::domain::contract::WalletAddress::from("0xW1".to_string()),
        LocalDateTime::parse("2023-04-01T12:00:00+09:00").unwrap(),
    );
    assert_eq!(c.address.as_str(), "0xAA");
    assert_eq!(c.wallet_address.0, "0xW1");
    assert_eq!(c.schema, Schema::ERC721);
    assert_eq!(c.network, Network::Avalanche);
    assert_eq!(c.abi, "[]");
    assert_eq!(c.created_at.to_rfc3339(), "2023-04-01T12:00:00+09:00");
}

#[test]
fn only_the_sync_command_asks_for_sync() {
    assert!(canvas_nft::application::sync::asks_for_sync("sync-token"));
    assert!(!canvas_nft::application::sync::asks_for_sync("sync"));
    assert!(!canvas_nft::application::sync::asks_for_sync(""));
    assert_eq!(canvas_nft::pagination::DEFAULT_LIMIT, 20);
}

#[test]
fn shown_enums_map_both_ways() {
    assert_eq!(types::Schema::from(Schema::ERC721), types::Schema::ERC721);
    assert_eq!(types::Schema::from(Schema::ERC1155), types::Schema::ERC1155);
    assert_eq!(types::Schema::ERC721.into(), Schema::ERC721);
    assert_eq!(types::Schema::ERC1155.into(), Schema::ERC1155);
    assert_eq!(types::Network::from(Network::Avalanche), types::Network::Avalanche);
    assert_eq!(types::Network::Avalanche.into(), Network::Avalanche);
}

#[test]
fn shown_date_time_is_rfc3339_text() {
    let t = types::DateTime::parse("2023-04-01T12:00:00+09:00").unwrap();
    assert_eq!(t.to_value(), "2023-04-01T12:00:00+09:00");
    assert!(types::DateTime::parse("1 April").is_err());
}

#[test]
fn shown_token_has_id_image_and_owner() {
    let token = canvas_nft::domain::token::Token::new(
        canvas_nft::domain::contract::ContractId::new("0xAA".to_string()),
        canvas_nft::domain::token::TokenId::new("7".to_string()),
        "w1".to_string(),
        "QmImage".to_string(),
        "w1".to_string(),
        "canvas nft".to_string(),
        canvas_nft::domain::contract::WalletAddress::from("0xW1".to_string()),
        LocalDateTime::parse("2023-04-01T12:00:00+09:00").unwrap(),
    );
    let shown = types::Token { token };
    assert_eq!(shown.id(), "0xAA#7");
    assert_eq!(shown.image_url("https://gateway.example"), "https://gateway.example/ipfs/QmImage");
    assert!(shown.is_owner(&canvas_nft::domain::contract::WalletAddress::from("0xW1".to_string())));
    assert!(!shown.is_owner(&canvas_nft::domain::contract::WalletAddress::from("0xW2".to_string())));
}
