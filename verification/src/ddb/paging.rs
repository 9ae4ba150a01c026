//! Paging keys: the position at which a scan of the table stopped, as an
//! opaque text that a caller hands back to go on from there.
//!
//! The text is the base64 form of a JSON object that maps each attribute of
//! the position to `{"S": text}` or `{"N": decimal text}`.

use vstd::prelude::*;
use vstd::string::{StringExecFns, StringSliceAdditionalSpecFns};
use vstd::utf8::{decode_utf8, encode_utf8, valid_utf8};
use std::collections::BTreeMap;
use crate::ddb::record::{
    AttributeValue,
    Record,
    Scalar,
    lemma_map_of_absent,
    lemma_map_of_contains,
    map_of,
};
use crate::errors::{AppError, Kind};
use crate::text::text_eq;

verus! {

/// A value of a paging key in the form in which it is written: a string or a
/// number, under its tag.
#[derive(Debug)]
pub enum EncodableAttributeValue {
    S(String),
    N(String),
}

impl EncodableAttributeValue {
    /// The stored value that this stands for.
    pub open spec fn scalar(self) -> Scalar {
        match self {
            EncodableAttributeValue::S(v) => Scalar::S(v@),
            EncodableAttributeValue::N(v) => Scalar::N(v@),
        }
    }

    /// The written form of a stored value: `None` for a value that is neither
    /// a string nor a number.
    pub fn of(value: &AttributeValue) -> (written: Option<Self>)
        ensures
            written.is_some() == !(value@ is Other),
            written matches Some(w) ==> w.scalar() == value@,
    {
        match value {
            AttributeValue::S(v) => Some(EncodableAttributeValue::S(v.clone())),
            AttributeValue::N(v) => Some(EncodableAttributeValue::N(v.clone())),
            AttributeValue::Other => None,
        }
    }
}

/// One member of a JSON object whose values are strings.
#[derive(Debug)]
pub struct JsonMember {
    pub tag: String,
    pub value: String,
}

/// One member of a JSON object whose values are objects of strings.
#[derive(Debug)]
pub struct JsonGroup {
    pub name: String,
    pub members: Vec<JsonMember>,
}

/// The object that a list of members stands for: where a tag occurs more than
/// once, its last occurrence counts.
pub open spec fn members_map(members: Seq<JsonMember>) -> Map<Seq<char>, Seq<char>>
    decreases members.len(),
{
    if members.len() == 0 {
        Map::empty()
    } else {
        members_map(members.drop_last()).insert(members.last().tag@, members.last().value@)
    }
}

/// The document that a list of groups stands for: where a name occurs more
/// than once, its last occurrence counts.
pub open spec fn groups_doc(groups: Seq<JsonGroup>) -> Map<Seq<char>, Map<Seq<char>, Seq<char>>>
    decreases groups.len(),
{
    if groups.len() == 0 {
        Map::empty()
    } else {
        groups_doc(groups.drop_last()).insert(
            groups.last().name@,
            members_map(groups.last().members@),
        )
    }
}

/// Whether no tag occurs twice among the members.
pub open spec fn distinct_tags(members: Seq<JsonMember>) -> bool {
    forall|i: int, j: int|
        0 <= i < j < members.len() ==> (#[trigger] members[i]).tag@ != (#[trigger] members[j]).tag@
}

/// Whether no name occurs twice among the groups, and no tag twice within a
/// group.
pub open spec fn distinct_names(groups: Seq<JsonGroup>) -> bool {
    &&& forall|i: int, j: int|
        0 <= i < j < groups.len() ==> (#[trigger] groups[i]).name@ != (#[trigger] groups[j]).name@
    &&& forall|i: int| 0 <= i < groups.len() ==> distinct_tags((#[trigger] groups[i]).members@)
}

/// Whether the groups stand for one document however a repeated name is
/// resolved: no tag occurs twice within a group, and groups of one name hold
/// the same members.
pub open spec fn unambiguous(groups: Seq<JsonGroup>) -> bool {
    &&& forall|i: int| 0 <= i < groups.len() ==> distinct_tags((#[trigger] groups[i]).members@)
    &&& forall|i: int, j: int|
        0 <= i < groups.len() && 0 <= j < groups.len() && (#[trigger] groups[i]).name@
            == (#[trigger] groups[j]).name@ ==> members_map(groups[i].members@) == members_map(
            groups[j].members@,
        )
}

/// The JSON text that `serde_json::to_string` writes for a map of maps of
/// strings.
pub uninterp spec fn json_text(doc: Map<Seq<char>, Map<Seq<char>, Seq<char>>>) -> Seq<char>;

/// The map of maps of strings that `serde_json::from_str` reads from a text,
/// or `None` where it refuses the text.
pub uninterp spec fn json_doc(text: Seq<char>) -> Option<Map<Seq<char>, Map<Seq<char>, Seq<char>>>>;

/// The text that `base64::encode` writes for the bytes.
pub uninterp spec fn base64_text(bytes: Seq<u8>) -> Seq<char>;

/// The bytes that `base64::decode` reads from a text, or `None` where it
/// refuses the text.
pub uninterp spec fn base64_bytes(text: Seq<char>) -> Option<Seq<u8>>;

/// Calls `serde_json::to_string` on the groups, held as a `BTreeMap` of
/// `BTreeMap`s of strings. The groups must stand for one document whichever
/// of two equal keys a map keeps. The text is a function of that document,
/// since such a map is written in the order of its keys; and
/// `serde_json::from_str` reads that document back from the text.
#[verifier::external_body]
fn render_json(groups: &Vec<JsonGroup>) -> (text: String)
    requires
        unambiguous(groups@),
    ensures
        text@ == json_text(groups_doc(groups@)),
        json_doc(text@) == Some(groups_doc(groups@)),
{
    let doc: BTreeMap<&str, BTreeMap<&str, &str>> = groups.iter().map(
        |g| (g.name.as_str(), g.members.iter().map(|m| (m.tag.as_str(), m.value.as_str())).collect()),
    ).collect();
    serde_json::to_string(&doc).unwrap_or_default()
}

/// Calls `serde_json::from_str` for a `BTreeMap` of `BTreeMap`s of strings and
/// hands the map out as groups, in the order of its keys. The groups stand
/// for the document that was read, and no key of a map occurs twice. A
/// refusal is handed out as the text of the error.
#[verifier::external_body]
fn parse_json(text: &str) -> (res: Result<Vec<JsonGroup>, String>)
    ensures
        res.is_ok() == json_doc(text@).is_some(),
        res matches Ok(groups) ==> groups_doc(groups@) == json_doc(text@).unwrap()
            && distinct_names(groups@),
{
    let doc: BTreeMap<String, BTreeMap<String, String>> = serde_json::from_str(text).map_err(
        |e| e.to_string(),
    )?;
    Ok(
        doc.into_iter().map(
            |(name, members)|
                JsonGroup {
                    name,
                    members: members.into_iter().map(|(tag, value)| JsonMember { tag, value }).collect(),
                },
        ).collect(),
    )
}

/// Calls `base64::encode` on the bytes of the text. The result is a function
/// of those bytes, and `base64::decode` reads them back from it.
#[verifier::external_body]
fn encode_base64(text: &str) -> (encoded: String)
    ensures
        encoded@ == base64_text(text.spec_bytes()),
        base64_bytes(encoded@) == Some(text.spec_bytes()),
{
    #[allow(deprecated)]
    base64::encode(text)
}

/// Calls `base64::decode` on the text. A refusal is handed out as the text of
/// the error.
#[verifier::external_body]
fn decode_base64(text: &str) -> (res: Result<Vec<u8>, String>)
    ensures
        res.is_ok() == base64_bytes(text@).is_some(),
        res matches Ok(bytes) ==> bytes@ == base64_bytes(text@).unwrap(),
{
    #[allow(deprecated)]
    base64::decode(text).map_err(|e| e.to_string())
}

/// Calls `String::from_utf8`: the text that the bytes encode, or `None` where
/// the bytes are not UTF-8.
#[verifier::external_body]
fn text_of_utf8(bytes: Vec<u8>) -> (text: Option<String>)
    ensures
        text.is_some() == valid_utf8(bytes@),
        text matches Some(t) ==> t@ == decode_utf8(bytes@),
{
    String::from_utf8(bytes).ok()
}

/// The written form of a stored value as an object: its text under its tag.
/// A value that is neither a string nor a number has none.
pub open spec fn scalar_group(value: Scalar) -> Option<Map<Seq<char>, Seq<char>>> {
    match value {
        Scalar::S(v) => Some(Map::<Seq<char>, Seq<char>>::empty().insert("S"@, v)),
        Scalar::N(v) => Some(Map::<Seq<char>, Seq<char>>::empty().insert("N"@, v)),
        Scalar::Other => None,
    }
}

/// The stored value that an object stands for: it must hold exactly one
/// member, tagged as a string or as a number.
pub open spec fn group_scalar(group: Map<Seq<char>, Seq<char>>) -> Option<Scalar> {
    if group.dom() =~= set!["S"@] {
        Some(Scalar::S(group["S"@]))
    } else if group.dom() =~= set!["N"@] {
        Some(Scalar::N(group["N"@]))
    } else {
        None
    }
}

/// The strings and numbers of a record: what of it a paging key can hold.
pub open spec fn scalars_of(rec: Map<Seq<char>, Scalar>) -> Map<Seq<char>, Scalar> {
    Map::new(|n: Seq<char>| rec.contains_key(n) && !(rec[n] is Other), |n: Seq<char>| rec[n])
}

/// The document that is written for a record: each string and number under
/// its attribute's name.
pub open spec fn cursor_doc(rec: Map<Seq<char>, Scalar>) -> Map<Seq<char>, Map<Seq<char>, Seq<char>>> {
    Map::new(
        |n: Seq<char>| rec.contains_key(n) && !(rec[n] is Other),
        |n: Seq<char>| scalar_group(rec[n]).unwrap(),
    )
}

/// The record that a document stands for, if each of its objects stands for
/// a stored value.
pub open spec fn doc_record(doc: Map<Seq<char>, Map<Seq<char>, Seq<char>>>) -> Option<
    Map<Seq<char>, Scalar>,
> {
    if forall|n: Seq<char>| doc.contains_key(n) ==> group_scalar(#[trigger] doc[n]).is_some() {
        Some(
            Map::new(
                |n: Seq<char>| doc.contains_key(n),
                |n: Seq<char>| group_scalar(doc[n]).unwrap(),
            ),
        )
    } else {
        None
    }
}

/// The text of the paging key of a record.
pub open spec fn encoded(rec: Map<Seq<char>, Scalar>) -> Seq<char> {
    base64_text(encode_utf8(json_text(cursor_doc(rec))))
}

/// The record that the text of a paging key holds: the text must be base64
/// of UTF-8 of a JSON document whose objects each stand for a stored value.
pub open spec fn decoded(text: Seq<char>) -> Option<Map<Seq<char>, Scalar>> {
    match base64_bytes(text) {
        None => None,
        Some(bytes) => if !valid_utf8(bytes) {
            None
        } else {
            match json_doc(decode_utf8(bytes)) {
                None => None,
                Some(doc) => doc_record(doc),
            }
        },
    }
}

/// The stored value that a group read from a document stands for.
pub open spec fn member_scalar(members: Seq<JsonMember>) -> Option<Scalar> {
    if members.len() != 1 {
        None
    } else if members[0].tag@ == "S"@ {
        Some(Scalar::S(members[0].value@))
    } else if members[0].tag@ == "N"@ {
        Some(Scalar::N(members[0].value@))
    } else {
        None
    }
}

/// The record that a list of groups stands for, if each group stands for a
/// stored value.
pub open spec fn groups_record(groups: Seq<JsonGroup>) -> Option<Map<Seq<char>, Scalar>>
    decreases groups.len(),
{
    if groups.len() == 0 {
        Some(Map::empty())
    } else {
        match (groups_record(groups.drop_last()), member_scalar(groups.last().members@)) {
            (Some(rec), Some(value)) => Some(rec.insert(groups.last().name@, value)),
            _ => None,
        }
    }
}

/// Every tag of the list is in the object.
proof fn lemma_members_map_contains(members: Seq<JsonMember>, at: int)
    requires
        0 <= at < members.len(),
    ensures
        members_map(members).contains_key(members[at].tag@),
    decreases members.len(),
{
    if at < members.len() - 1 {
        lemma_members_map_contains(members.drop_last(), at);
    }
}

/// A name that no group of the list carries is not in the document.
proof fn lemma_groups_doc_absent(groups: Seq<JsonGroup>, name: Seq<char>)
    requires
        forall|i: int| 0 <= i < groups.len() ==> groups[i].name@ != name,
    ensures
        !groups_doc(groups).contains_key(name),
    decreases groups.len(),
{
    if groups.len() > 0 {
        lemma_groups_doc_absent(groups.drop_last(), name);
    }
}

/// Among members with distinct tags, the object stands for a stored value
/// exactly when the list of members does, and for the same one.
proof fn lemma_member_scalar(members: Seq<JsonMember>)
    requires
        distinct_tags(members),
    ensures
        group_scalar(members_map(members)) == member_scalar(members),
{
    reveal_strlit("S");
    reveal_strlit("N");
    assert("S"@ != "N"@) by {
        assert("S"@[0] != "N"@[0]);
    }
    let m = members_map(members);
    if members.len() == 0 {
        assert(set!["S"@].contains("S"@));
        assert(set!["N"@].contains("N"@));
    } else if members.len() == 1 {
        assert(members.drop_last().len() == 0);
        assert(members_map(members.drop_last()) =~= Map::<Seq<char>, Seq<char>>::empty());
        assert(members.last() == members[0]);
        let tag = members[0].tag@;
        assert(m =~= Map::<Seq<char>, Seq<char>>::empty().insert(tag, members[0].value@));
        assert(m.dom() =~= set![tag]);
        assert(set!["S"@].contains("S"@));
        assert(set!["N"@].contains("N"@));
        assert(set![tag].contains(tag));
    } else {
        lemma_members_map_contains(members, 0);
        lemma_members_map_contains(members, 1);
        assert(members[0].tag@ != members[1].tag@);
    }
}

/// Among groups with distinct names and tags, the record that the groups
/// stand for is the record that their document stands for.
proof fn lemma_groups_record(groups: Seq<JsonGroup>)
    requires
        distinct_names(groups),
    ensures
        groups_record(groups) == doc_record(groups_doc(groups)),
    decreases groups.len(),
{
    if groups.len() == 0 {
        assert(doc_record(groups_doc(groups)).unwrap() =~= Map::<Seq<char>, Scalar>::empty());
    } else {
        let front = groups.drop_last();
        let last = groups.last();
        assert(distinct_names(front)) by {
            assert forall|i: int| 0 <= i < front.len() implies distinct_tags(
                (#[trigger] front[i]).members@,
            ) by {
                assert(front[i] == groups[i]);
            }
        }
        lemma_groups_record(front);
        lemma_member_scalar(last.members@);
        assert forall|i: int| 0 <= i < front.len() implies front[i].name@ != last.name@ by {
            assert(groups[i].name@ != groups[groups.len() - 1].name@);
        }
        lemma_groups_doc_absent(front, last.name@);
        let d0 = groups_doc(front);
        let d = groups_doc(groups);
        let g = members_map(last.members@);
        assert(d == d0.insert(last.name@, g));
        if doc_record(d0).is_some() && group_scalar(g).is_some() {
            assert forall|n: Seq<char>| d.contains_key(n) implies group_scalar(
                #[trigger] d[n],
            ).is_some() by {
                if n != last.name@ {
                    assert(d0.contains_key(n));
                    assert(d[n] == d0[n]);
                }
            }
            assert(doc_record(d).unwrap() =~= doc_record(d0).unwrap().insert(
                last.name@,
                group_scalar(g).unwrap(),
            ));
        } else if doc_record(d0).is_none() {
            let n = choose|n: Seq<char>| d0.contains_key(n) && !group_scalar(#[trigger] d0[n]).is_some();
            assert(d.contains_key(n) && d[n] == d0[n]);
        } else {
            assert(d.contains_key(last.name@) && d[last.name@] == g);
        }
    }
}

/// The document that is written for a record stands for the strings and
/// numbers of that record.
pub proof fn lemma_cursor_doc_reads_back(rec: Map<Seq<char>, Scalar>)
    ensures
        doc_record(cursor_doc(rec)) == Some(scalars_of(rec)),
{
    reveal_strlit("S");
    reveal_strlit("N");
    assert("S"@ != "N"@) by {
        assert("S"@[0] != "N"@[0]);
    }
    let doc = cursor_doc(rec);
    assert forall|n: Seq<char>| doc.contains_key(n) implies group_scalar(#[trigger] doc[n]) == Some(
        rec[n],
    ) by {
        match rec[n] {
            Scalar::S(v) => {
                assert(doc[n].dom() =~= set!["S"@]);
            },
            Scalar::N(v) => {
                assert(doc[n].dom() =~= set!["N"@]);
                assert(doc[n].dom().contains("N"@));
                assert(!set!["S"@].contains("N"@));
            },
            Scalar::Other => {},
        }
    }
    assert(doc_record(doc).unwrap() =~= scalars_of(rec));
}

/// A record of strings and numbers is all strings and numbers: a paging key
/// holds it whole.
pub proof fn lemma_scalars_of_plain(rec: Map<Seq<char>, Scalar>)
    requires
        forall|n: Seq<char>| rec.contains_key(n) ==> !(#[trigger] rec[n] is Other),
    ensures
        scalars_of(rec) == rec,
{
    assert(scalars_of(rec) =~= rec);
}

/// The position at which a scan stopped, or `None` at the start of the
/// sequence.
#[derive(Debug)]
pub struct PagingKey {
    pub val: Option<Record>,
}

impl PagingKey {
    /// The record of the key as a mapping, if there is one.
    pub open spec fn val_view(self) -> Option<Map<Seq<char>, Scalar>> {
        match self.val {
            Some(rec) => Some(rec@),
            None => None,
        }
    }

    /// The paging key for the position that the store reported.
    pub fn from(val: Option<Record>) -> (key: Self)
        ensures
            key.val == val,
    {
        PagingKey { val }
    }

    /// The groups that are written for a record: one group for each string
    /// and number, with its text under its tag.
    pub fn to_groups(record: &Record) -> (groups: Vec<JsonGroup>)
        ensures
            groups_doc(groups@) == cursor_doc(record@),
            unambiguous(groups@),
    {
        let entries = record.entries();
        let mut groups: Vec<JsonGroup> = Vec::new();
        let mut i: usize = 0;
        while i < entries.len()
            invariant
                0 <= i <= entries.len(),
                map_of(entries@) == record@,
                forall|j: int|
                    0 <= j < groups@.len() ==> (#[trigger] groups@[j]).members@.len() == 1
                        && record@.contains_key(groups@[j].name@) && Some(
                        members_map(groups@[j].members@),
                    ) == scalar_group(record@[groups@[j].name@]),
                groups_doc(groups@) =~= Map::new(
                    |n: Seq<char>|
                        (exists|k: int| 0 <= k < i && (#[trigger] entries@[k]).name@ == n)
                            && record@.contains_key(n) && !(record@[n] is Other),
                    |n: Seq<char>| scalar_group(record@[n]).unwrap(),
                ),
            decreases entries.len() - i,
        {
            let name = &entries[i].name;
            proof {
                lemma_map_of_contains(entries@, i as int);
            }
            let ghost before = groups_doc(groups@);
            match record.get(name.as_str()) {
                Some(value) => match EncodableAttributeValue::of(value) {
                    Some(written) => {
                        let (tag, text) = match written {
                            EncodableAttributeValue::S(v) => (String::from_str("S"), v),
                            EncodableAttributeValue::N(v) => (String::from_str("N"), v),
                        };
                        let mut members: Vec<JsonMember> = Vec::new();
                        members.push(JsonMember { tag, value: text });
                        proof {
                            assert(members@.drop_last().len() == 0);
                            assert(members_map(members@.drop_last()) =~= Map::<
                                Seq<char>,
                                Seq<char>,
                            >::empty());
                            assert(members@.last() == members@[0]);
                            assert(members_map(members@) =~= scalar_group(record@[name@]).unwrap());
                        }
                        let ghost prior = groups@;
                        groups.push(JsonGroup { name: name.clone(), members });
                        proof {
                            assert(groups@.drop_last() =~= prior);
                            assert(groups_doc(groups@) == before.insert(
                                name@,
                                scalar_group(record@[name@]).unwrap(),
                            ));
                        }
                    },
                    None => {},
                },
                None => {},
            }
            proof {
                let next = Map::new(
                    |n: Seq<char>|
                        (exists|k: int| 0 <= k < i + 1 && (#[trigger] entries@[k]).name@ == n)
                            && record@.contains_key(n) && !(record@[n] is Other),
                    |n: Seq<char>| scalar_group(record@[n]).unwrap(),
                );
                assert forall|n: Seq<char>| next.contains_key(n) <==> groups_doc(
                    groups@,
                ).contains_key(n) by {
                    if next.contains_key(n) {
                        let k = choose|k: int| 0 <= k < i + 1 && (#[trigger] entries@[k]).name@ == n;
                        if k < i {
                            assert(before.contains_key(n));
                        }
                    }
                    if groups_doc(groups@).contains_key(n) {
                        if before.contains_key(n) {
                            let k = choose|k: int| 0 <= k < i && (#[trigger] entries@[k]).name@ == n;
                            assert(0 <= k < i + 1 && entries@[k].name@ == n);
                        } else {
                            assert(entries@[i as int].name@ == n);
                        }
                    }
                }
                assert(groups_doc(groups@) =~= next);
            }
            i += 1;
        }
        proof {
            assert forall|n: Seq<char>| record@.contains_key(n) implies exists|k: int|
                0 <= k < entries@.len() && (#[trigger] entries@[k]).name@ == n by {
                if forall|k: int| 0 <= k < entries@.len() ==> entries@[k].name@ != n {
                    lemma_map_of_absent(entries@, n);
                }
            }
            assert(groups_doc(groups@) =~= cursor_doc(record@));
            assert forall|j: int| 0 <= j < groups@.len() implies distinct_tags(
                (#[trigger] groups@[j]).members@,
            ) by {}
        }
        groups
    }

    /// The record that a list of groups read from a document stands for.
    ///
    /// Every group must hold exactly one member, tagged `S` or `N`; a list
    /// with any other group is refused as an `Internal` failure. Where a name
    /// occurs more than once, its last occurrence counts.
    pub fn from_groups(groups: &Vec<JsonGroup>) -> (res: Result<Record, AppError>)
        ensures
            match groups_record(groups@) {
                Some(rec) => res.is_ok() && res.unwrap()@ == rec,
                None => (res matches Err(e) && e.kind == Kind::Internal),
            },
    {
        let mut record = Record::new();
        let mut i: usize = 0;
        while i < groups.len()
            invariant
                0 <= i <= groups.len(),
                groups_record(groups@.take(i as int)) == Some(record@),
            decreases groups.len() - i,
        {
            assert(groups@.take(i + 1).drop_last() =~= groups@.take(i as int));
            let group = &groups[i];
            let value = if group.members.len() != 1 {
                None
            } else if text_eq(group.members[0].tag.as_str(), "S") {
                Some(AttributeValue::S(group.members[0].value.clone()))
            } else if text_eq(group.members[0].tag.as_str(), "N") {
                Some(AttributeValue::N(group.members[0].value.clone()))
            } else {
                None
            };
            match value {
                Some(v) => {
                    record.insert(group.name.clone(), v);
                },
                None => {
                    proof {
                        lemma_groups_record_stays_none(groups@, i + 1);
                    }
                    return Err(AppError::new(Kind::Internal, "malformed paging key"));
                },
            }
            i += 1;
        }
        assert(groups@.take(i as int) =~= groups@);
        Ok(record)
    }

    /// Reads a paging key from its text; no text is the start of the
    /// sequence.
    ///
    /// A text that is not base64, not UTF-8 beneath, not JSON beneath that, or
    /// whose document holds anything but strings and numbers under their
    /// tags, is refused as an `Internal` failure: no text reads as a key that
    /// it does not hold.
    pub fn decode(from: Option<String>) -> (res: Result<Self, AppError>)
        ensures
            match from {
                None => res.is_ok() && res.unwrap().val.is_none(),
                Some(text) => match decoded(text@) {
                    Some(rec) => res.is_ok() && res.unwrap().val_view() == Some(rec),
                    None => (res matches Err(e) && e.kind == Kind::Internal),
                },
            },
    {
        let text = match from {
            None => {
                return Ok(PagingKey { val: None });
            },
            Some(text) => text,
        };
        let bytes = match decode_base64(text.as_str()) {
            Ok(bytes) => bytes,
            Err(msg) => {
                return Err(AppError::from_message(msg));
            },
        };
        let json = match text_of_utf8(bytes) {
            Some(json) => json,
            None => {
                return Err(AppError::new(Kind::Internal, "malformed paging key"));
            },
        };
        let groups = match parse_json(json.as_str()) {
            Ok(groups) => groups,
            Err(msg) => {
                return Err(AppError::from_message(msg));
            },
        };
        proof {
            lemma_groups_record(groups@);
        }
        match Self::from_groups(&groups) {
            Ok(record) => Ok(PagingKey { val: Some(record) }),
            Err(e) => Err(e),
        }
    }

    /// Writes the paging key as its text; the start of the sequence has none.
    ///
    /// The text reads back, by `decode`, as the strings and numbers of the
    /// key under their names.
    pub fn encode(&self) -> (text: Option<String>)
        ensures
            match self.val {
                None => text.is_none(),
                Some(rec) => text.is_some() && text.unwrap()@ == encoded(rec@) && decoded(
                    text.unwrap()@,
                ) == Some(scalars_of(rec@)),
            },
    {
        match &self.val {
            None => None,
            Some(record) => {
                let groups = Self::to_groups(record);
                let json = render_json(&groups);
                let text = encode_base64(json.as_str());
                proof {
                    vstd::utf8::encode_utf8_valid_utf8(json@);
                    vstd::utf8::encode_utf8_decode_utf8(json@);
                    lemma_cursor_doc_reads_back(record@);
                }
                Some(text)
            },
        }
    }
}

/// A refusal among the first `n` groups is a refusal of all the groups.
proof fn lemma_groups_record_stays_none(groups: Seq<JsonGroup>, n: int)
    requires
        0 <= n <= groups.len(),
        groups_record(groups.take(n)).is_none(),
    ensures
        groups_record(groups).is_none(),
    decreases groups.len() - n,
{
    if n < groups.len() {
        assert(groups.take(n + 1).drop_last() =~= groups.take(n));
        lemma_groups_record_stays_none(groups, n + 1);
    } else {
        assert(groups.take(n) =~= groups);
    }
}

} // verus!
