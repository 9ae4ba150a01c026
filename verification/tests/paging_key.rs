use canvas_nft::ddb::paging::{JsonGroup, JsonMember};
use canvas_nft::ddb::{AttributeValue, PagingKey, Record};
use canvas_nft::errors::Kind;

fn position() -> Record {
    let mut rec = Record::new();
    rec.insert("pk".into(), AttributeValue::S("contract#0xAA".into()));
    rec.insert("createdAt".into(), AttributeValue::S("2023-04-01T12:00:00+09:00".into()));
    rec
}

fn value(rec: &Record, name: &str) -> (char, String) {
    match rec.get(name) {
        Some(AttributeValue::S(v)) => ('S', v.clone()),
        Some(AttributeValue::N(v)) => ('N', v.clone()),
        _ => panic!("{}", name),
    }
}

#[test]
fn start_of_sequence_has_no_text() {
    assert_eq!(PagingKey::from(None).encode(), None);
    assert!(PagingKey::decode(None).unwrap().val.is_none());
}

#[test]
fn encode_is_base64_over_json_in_key_order() {
    let text = PagingKey::from(Some(position())).encode().unwrap();
    assert_eq!(
        text,
        "eyJjcmVhdGVkQXQiOnsiUyI6IjIwMjMtMDQtMDFUMTI6MDA6MDArMDk6MDAifSwicGsiOnsiUyI6ImNvbnRyYWN0IzB4QUEifX0="
    );
}

#[test]
fn decode_reads_strings_and_numbers_under_their_tags() {
    let key = PagingKey::decode(Some("eyJuIjp7Ik4iOiIxLjUifSwibmFtZSI6eyJTIjoi5pel5pys6KqeIFwicVwiIn19".into()))
        .unwrap();
    let rec = key.val.unwrap();
    assert_eq!(value(&rec, "n"), ('N', "1.5".to_string()));
    assert_eq!(value(&rec, "name"), ('S', "日本語 \"q\"".to_string()));
    assert_eq!(rec.entries().len(), 2);
}

#[test]
fn paging_key_decode_undoes_encode() {
    let mut rec = position();
    rec.insert("n".into(), AttributeValue::N("12.5".into()));
    rec.insert("odd".into(), AttributeValue::S("日本語 \"quoted\" \\ \n\t\u{1}".into()));
    rec.insert("empty".into(), AttributeValue::S(String::new()));
    let text = PagingKey::from(Some(rec.clone())).encode().unwrap();
    assert!(text.bytes().all(|b| b.is_ascii_alphanumeric() || b == b'+' || b == b'/' || b == b'='));
    let back = PagingKey::decode(Some(text)).unwrap().val.unwrap();
    for name in ["pk", "createdAt", "n", "odd", "empty"] {
        assert_eq!(value(&back, name), value(&rec, name));
    }
    assert_eq!(back.entries().len(), 5);
}

#[test]
fn encode_writes_the_last_value_of_a_repeated_name_and_skips_other_kinds() {
    let mut rec = Record::new();
    rec.insert("a".into(), AttributeValue::S("old".into()));
    rec.insert("b".into(), AttributeValue::Other);
    rec.insert("a".into(), AttributeValue::N("7".into()));
    let text = PagingKey::from(Some(rec)).encode().unwrap();
    let back = PagingKey::decode(Some(text)).unwrap().val.unwrap();
    assert_eq!(value(&back, "a"), ('N', "7".to_string()));
    assert!(back.get("b").is_none());
    assert_eq!(back.entries().len(), 1);
}

#[test]
fn empty_record_round_trips() {
    let text = PagingKey::from(Some(Record::new())).encode().unwrap();
    assert_eq!(text, "e30=");
    let back = PagingKey::decode(Some(text)).unwrap().val.unwrap();
    assert!(back.entries().is_empty());
}

#[test]
fn tampered_text_is_refused() {
    let good = PagingKey::from(Some(position())).encode().unwrap();
    let cases: Vec<String> = vec![
        "not base64!".into(),
        good[..good.len() - 3].to_string(),
        format!("{}A", good),
        "//4=".into(),
        "eyJwayI6IngifQ==".into(),
        "eyJwayI6eyJCIjoieCJ9fQ==".into(),
        "eyJwayI6eyJTIjoieCIsIk4iOiIxIn19".into(),
        "bm90IGpzb24=".into(),
        "W10=".into(),
    ];
    for text in cases {
        let e = PagingKey::decode(Some(text.clone())).err();
        assert!(e.is_some(), "{}", text);
        assert_eq!(e.unwrap().kind, Kind::Internal);
    }
    assert!(PagingKey::decode(Some("eyJwayI6eyJTIjoieCJ9fQ==".into())).is_ok());
}

#[test]
fn groups_with_one_tagged_member_each_make_a_record() {
    let groups = vec![
        JsonGroup { name: "pk".into(), members: vec![JsonMember { tag: "S".into(), value: "x".into() }] },
        JsonGroup { name: "n".into(), members: vec![JsonMember { tag: "N".into(), value: "1".into() }] },
    ];
    let rec = PagingKey::from_groups(&groups).unwrap();
    assert_eq!(value(&rec, "pk"), ('S', "x".to_string()));
    assert_eq!(value(&rec, "n"), ('N', "1".to_string()));
}

#[test]
fn groups_of_any_other_shape_are_refused() {
    let unknown_tag =
        vec![JsonGroup { name: "pk".into(), members: vec![JsonMember { tag: "B".into(), value: "x".into() }] }];
    assert_eq!(PagingKey::from_groups(&unknown_tag).unwrap_err().kind, Kind::Internal);
    let no_member = vec![JsonGroup { name: "pk".into(), members: vec![] }];
    assert_eq!(PagingKey::from_groups(&no_member).unwrap_err().kind, Kind::Internal);
    let two_members = vec![JsonGroup {
        name: "pk".into(),
        members: vec![
            JsonMember { tag: "N".into(), value: "1".into() },
            JsonMember { tag: "S".into(), value: "x".into() },
        ],
    }];
    assert_eq!(PagingKey::from_groups(&two_members).unwrap_err().kind, Kind::Internal);
    assert!(PagingKey::from_groups(&Vec::new()).unwrap().entries().is_empty());
}

#[test]
fn to_groups_writes_one_member_under_the_tag_of_the_kind() {
    let groups = PagingKey::to_groups(&position());
    assert_eq!(groups.len(), 2);
    for g in groups.iter() {
        assert_eq!(g.members.len(), 1);
        assert_eq!(g.members[0].tag, "S");
    }
    assert_eq!(groups[0].name, "pk");
    assert_eq!(groups[0].members[0].value, "contract#0xAA");
}
