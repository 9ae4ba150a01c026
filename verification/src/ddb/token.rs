//! Tokens in the table: their record form and the requests that find them.

use vstd::prelude::*;
use crate::ddb::codec::{
    DecodeError,
    Field,
    key_at,
    price_at,
    read_key,
    read_price,
    read_string,
    read_time,
    string_at,
    time_at,
};
use crate::ddb::contract::TABLE_NAME;
use crate::ddb::key::{PrimaryKey, key_prefix, key_text, lemma_key_round_trip};
use crate::ddb::query::{
    ComparisonOperator,
    Entity,
    EntityWithCursor,
    GetItemRequest,
    KeyCondition,
    PutItemRequest,
    QueryRequest,
    condition_eq,
    condition_sk_type,
    condition_start_from,
    first_failure,
    first_row_failure,
    read_all,
    read_first,
    read_one,
    read_page,
    reports,
};
use crate::ddb::record::{Attribute, AttributeValue, Record, Scalar};
use crate::errors::{AppError, Kind};
use crate::pagination::Cursor;
use vstd::string::StringExecFns;
use crate::domain::contract::{ContractId, WalletAddress};
use crate::domain::price::is_decimal;
use crate::domain::time::rfc3339_accepted;
use crate::domain::token::{Token, TokenId, TokenView};

verus! {

/// The record form of a token without its price.
pub open spec fn unlisted_token_record(t: TokenView) -> Map<Seq<char>, Scalar> {
    Map::<Seq<char>, Scalar>::empty().insert(
        Field::Pk.name(),
        Scalar::S(key_text("contract"@, t.address)),
    ).insert(Field::Sk.name(), Scalar::S(key_text("token"@, t.token_id))).insert(
        Field::WorkId.name(),
        Scalar::S(t.work_id),
    ).insert(Field::OwnerAddress.name(), Scalar::S(t.owner_address)).insert(
        Field::IpfsImageHash.name(),
        Scalar::S(t.ipfs_image_hash),
    ).insert(Field::Name.name(), Scalar::S(t.name)).insert(
        Field::Description.name(),
        Scalar::S(t.description),
    ).insert(Field::CreatedAt.name(), Scalar::S(t.created_at)).insert(
        Field::Glk.name(),
        Scalar::S("token"@),
    )
}

/// The record form of a token. The price is written as a number when the
/// token has one, and left out of the record when it has none.
pub open spec fn token_record(t: TokenView) -> Map<Seq<char>, Scalar> {
    match t.price_eth {
        Some(p) => unlisted_token_record(t).insert(Field::PriceEth.name(), Scalar::N(p)),
        None => unlisted_token_record(t),
    }
}

/// The token that a record holds, or the first failure met when its
/// attributes are read in the order contract, token, work, owner, image
/// hash, name, description, price, creation time.
pub open spec fn token_of(rec: Map<Seq<char>, Scalar>) -> Result<TokenView, DecodeError> {
    match key_at(rec, Field::Pk, "contract"@) {
        Err(e) => Err(e),
        Ok(address) => match key_at(rec, Field::Sk, "token"@) {
            Err(e) => Err(e),
            Ok(token_id) => match string_at(rec, Field::WorkId) {
                Err(e) => Err(e),
                Ok(work_id) => match string_at(rec, Field::OwnerAddress) {
                    Err(e) => Err(e),
                    Ok(owner_address) => match string_at(rec, Field::IpfsImageHash) {
                        Err(e) => Err(e),
                        Ok(ipfs_image_hash) => match string_at(rec, Field::Name) {
                            Err(e) => Err(e),
                            Ok(name) => match string_at(rec, Field::Description) {
                                Err(e) => Err(e),
                                Ok(description) => match price_at(rec, Field::PriceEth) {
                                    Err(e) => Err(e),
                                    Ok(price_eth) => match time_at(rec, Field::CreatedAt) {
                                        Err(e) => Err(e),
                                        Ok(created_at) => Ok(
                                            TokenView {
                                                address,
                                                token_id,
                                                work_id,
                                                owner_address,
                                                ipfs_image_hash,
                                                name,
                                                description,
                                                price_eth,
                                                created_at,
                                            },
                                        ),
                                    },
                                },
                            },
                        },
                    },
                },
            },
        },
    }
}

/// Reading the record form of a token gives the token back, with its price
/// or without one.
pub proof fn lemma_token_round_trip(t: TokenView)
    requires
        rfc3339_accepted(t.created_at),
        t.price_eth matches Some(p) ==> is_decimal(p),
    ensures
        token_of(token_record(t)) == Ok::<TokenView, DecodeError>(t),
{
    Field::lemma_names_distinct();
    lemma_key_round_trip("contract"@, t.address);
    lemma_key_round_trip("token"@, t.token_id);
    let rec = token_record(t);
    assert(key_at(rec, Field::Pk, "contract"@) == Ok::<Seq<char>, DecodeError>(t.address));
    assert(key_at(rec, Field::Sk, "token"@) == Ok::<Seq<char>, DecodeError>(t.token_id));
    assert(string_at(rec, Field::WorkId) == Ok::<Seq<char>, DecodeError>(t.work_id));
    assert(string_at(rec, Field::OwnerAddress) == Ok::<Seq<char>, DecodeError>(t.owner_address));
    assert(string_at(rec, Field::IpfsImageHash) == Ok::<Seq<char>, DecodeError>(
        t.ipfs_image_hash,
    ));
    assert(string_at(rec, Field::Name) == Ok::<Seq<char>, DecodeError>(t.name));
    assert(string_at(rec, Field::Description) == Ok::<Seq<char>, DecodeError>(t.description));
    assert(price_at(rec, Field::PriceEth) == Ok::<Option<Seq<char>>, DecodeError>(t.price_eth));
    assert(time_at(rec, Field::CreatedAt) == Ok::<Seq<char>, DecodeError>(t.created_at));
}

/// A record holds a price exactly when the token that it stands for is listed.
pub proof fn lemma_listed_iff_price_written(t: TokenView)
    ensures
        token_record(t).contains_key(Field::PriceEth.name()) <==> t.price_eth.is_some(),
{
    Field::lemma_names_distinct();
}

impl Token {
    /// Reads a token from its record.
    ///
    /// Every attribute of the token but the price is required; a record
    /// without a price is a token that is not listed. The first attribute
    /// that is absent, of the wrong kind or malformed decides the failure.
    pub fn try_from(v: Record) -> (res: Result<Token, DecodeError>)
        ensures
            match token_of(v@) {
                Ok(t) => res.is_ok() && res.unwrap()@ == t && res.unwrap().wf(),
                Err(e) => res.is_err() && res.unwrap_err() == e,
            },
    {
        let address = match read_key(&v, Field::Pk, "contract") {
            Ok(raw) => ContractId::new(raw),
            Err(e) => {
                return Err(e);
            },
        };
        let token_id = match read_key(&v, Field::Sk, "token") {
            Ok(raw) => TokenId::new(raw),
            Err(e) => {
                return Err(e);
            },
        };
        let work_id = match read_string(&v, Field::WorkId) {
            Ok(raw) => raw,
            Err(e) => {
                return Err(e);
            },
        };
        let owner_address = match read_string(&v, Field::OwnerAddress) {
            Ok(raw) => WalletAddress::from(raw),
            Err(e) => {
                return Err(e);
            },
        };
        let ipfs_image_hash = match read_string(&v, Field::IpfsImageHash) {
            Ok(raw) => raw,
            Err(e) => {
                return Err(e);
            },
        };
        let name = match read_string(&v, Field::Name) {
            Ok(raw) => raw,
            Err(e) => {
                return Err(e);
            },
        };
        let description = match read_string(&v, Field::Description) {
            Ok(raw) => raw,
            Err(e) => {
                return Err(e);
            },
        };
        let price_eth = match read_price(&v, Field::PriceEth) {
            Ok(price) => price,
            Err(e) => {
                return Err(e);
            },
        };
        let created_at = match read_time(&v, Field::CreatedAt) {
            Ok(t) => t,
            Err(e) => {
                return Err(e);
            },
        };
        Ok(
            Token {
                address,
                token_id,
                work_id,
                owner_address,
                ipfs_image_hash,
                name,
                description,
                price_eth,
                created_at,
            },
        )
    }

    /// Writes the token as its record: every field under its attribute and the
    /// kind under `glk`. The price is written only when the token has one.
    pub fn into(self) -> (record: Record)
        ensures
            record@ == token_record(self@),
    {
        let mut record = Record::new();
        record.insert(Field::Pk.to_string(), self.address.to_attribute_value());
        record.insert(Field::Sk.to_string(), self.token_id.to_attribute_value());
        record.insert(Field::WorkId.to_string(), AttributeValue::S(self.work_id));
        record.insert(
            Field::OwnerAddress.to_string(),
            AttributeValue::S(self.owner_address.to_string()),
        );
        record.insert(Field::IpfsImageHash.to_string(), AttributeValue::S(self.ipfs_image_hash));
        record.insert(Field::Name.to_string(), AttributeValue::S(self.name));
        record.insert(Field::Description.to_string(), AttributeValue::S(self.description));
        record.insert(Field::CreatedAt.to_string(), AttributeValue::S(self.created_at.to_rfc3339()));
        record.insert(Field::Glk.to_string(), AttributeValue::S(TokenId::typename()));
        match self.price_eth {
            Some(price) => {
                record.insert(Field::PriceEth.to_string(), AttributeValue::N(price.to_string()));
            },
            None => {},
        }
        record
    }
}

impl Entity for Token {
    open spec fn failure(rec: Map<Seq<char>, Scalar>) -> Option<DecodeError> {
        match token_of(rec) {
            Err(e) => Some(e),
            Ok(_) => None,
        }
    }

    open spec fn reads_as(&self, rec: Map<Seq<char>, Scalar>) -> bool {
        token_of(rec) == Ok::<TokenView, DecodeError>(self@) && self.wf()
    }

    fn from_record(rec: Record) -> (res: Result<Self, DecodeError>) {
        Token::try_from(rec)
    }
}

/// The key of the row of the token `token_id` of the contract `address`.
pub open spec fn token_key(address: Seq<char>, token_id: Seq<char>) -> Map<Seq<char>, Scalar> {
    Map::<Seq<char>, Scalar>::empty().insert("pk"@, Scalar::S(key_text("contract"@, address))).insert(
        "sk"@,
        Scalar::S(key_text("token"@, token_id)),
    )
}

/// The record of a token carries the key under which the token is looked up.
pub proof fn lemma_token_record_has_its_key(t: TokenView)
    ensures
        forall|name: Seq<char>| #[trigger]
            token_key(t.address, t.token_id).contains_key(name) ==> token_record(t).contains_key(
                name,
            ) && token_record(t)[name] == token_key(t.address, t.token_id)[name],
{
    Field::lemma_names_distinct();
    assert(Field::Pk.name() == "pk"@);
    assert(Field::Sk.name() == "sk"@);
}

/// Whether the wallet `wallet` holds the token, listed or not as `listed` says.
pub open spec fn is_held(token: Token, wallet: Seq<char>, listed: bool) -> bool {
    token.owner_address@ == wallet && token.price_eth.is_some() == listed
}

/// The rows whose tokens the wallet holds, listed or not as `listed` says, in
/// the order of `rows`.
pub open spec fn held_rows(rows: Seq<EntityWithCursor<Token>>, wallet: Seq<char>, listed: bool) -> Seq<
    EntityWithCursor<Token>,
>
    decreases rows.len(),
{
    if rows.len() == 0 {
        Seq::empty()
    } else if is_held(rows.last().entity, wallet, listed) {
        held_rows(rows.drop_last(), wallet, listed).push(rows.last())
    } else {
        held_rows(rows.drop_last(), wallet, listed)
    }
}

/// The rows that are kept are rows of the list, and each holds a token that
/// the wallet holds, listed or not as asked.
pub proof fn lemma_held_rows(rows: Seq<EntityWithCursor<Token>>, wallet: Seq<char>, listed: bool)
    ensures
        held_rows(rows, wallet, listed).len() <= rows.len(),
        forall|k: int|
            0 <= k < held_rows(rows, wallet, listed).len() ==> is_held(
                (#[trigger] held_rows(rows, wallet, listed)[k]).entity,
                wallet,
                listed,
            ) && rows.contains(held_rows(rows, wallet, listed)[k]),
    decreases rows.len(),
{
    if rows.len() > 0 {
        let front = rows.drop_last();
        lemma_held_rows(front, wallet, listed);
        let kept = held_rows(rows, wallet, listed);
        assert forall|k: int| 0 <= k < kept.len() implies is_held(
            (#[trigger] kept[k]).entity,
            wallet,
            listed,
        ) && rows.contains(kept[k]) by {
            if k < held_rows(front, wallet, listed).len() {
                let row = held_rows(front, wallet, listed)[k];
                assert(front.contains(row));
                let at = choose|at: int| 0 <= at < front.len() && front[at] == row;
                assert(rows[at] == row);
            } else {
                assert(rows[rows.len() - 1] == kept[k]);
            }
        }
    }
}

/// Keeps the rows whose tokens the wallet holds, listed or not as `listed`
/// says: the filter that tells stock from sell orders.
pub fn keep_held(rows: &Vec<EntityWithCursor<Token>>, wallet_address: &WalletAddress, listed: bool) -> (kept:
    Vec<EntityWithCursor<Token>>)
    ensures
        kept@ == held_rows(rows@, wallet_address@, listed),
{
    let mut kept: Vec<EntityWithCursor<Token>> = Vec::new();
    let mut i: usize = 0;
    while i < rows.len()
        invariant
            0 <= i <= rows.len(),
            kept@ == held_rows(rows@.take(i as int), wallet_address@, listed),
        decreases rows.len() - i,
    {
        assert(rows@.take(i + 1).drop_last() =~= rows@.take(i as int));
        let row = &rows[i];
        if row.entity.owner_address.same(wallet_address) && row.entity.price_eth.is_some() == listed {
            kept.push(EntityWithCursor { entity: row.entity.clone(), cursor: row.cursor.clone() });
        }
        i += 1;
    }
    assert(rows@.take(i as int) =~= rows@);
    kept
}

/// Whether `query` is a page of the tokens of the contract `address`, read
/// through the index on the creation time.
pub open spec fn pages_tokens_of(
    query: QueryRequest,
    address: Seq<char>,
    cursor: Option<Cursor>,
    limit: i32,
    forward: bool,
) -> bool {
    &&& query.reads(TABLE_NAME@, Some("pk-createdAt-index"@))
    &&& query.key_conditions@.len() >= 1
    &&& query.key_conditions@[0].is(
        "pk"@,
        ComparisonOperator::Eq,
        Scalar::S(key_text("contract"@, address)),
    )
    &&& query.pages(1, "createdAt"@, cursor, limit, forward)
}

/// Whether `values` names the kind of tokens as `:glk`, and nothing else.
pub open spec fn names_kind(values: Seq<Attribute>) -> bool {
    values.len() == 1 && values[0].name@ == ":glk"@ && values[0].value@ == Scalar::S("token"@)
}

/// Whether `values` names the kind of tokens as `:glk` and the wallet as
/// `:ownerAddress`, and nothing else.
pub open spec fn names_kind_and_owner(values: Seq<Attribute>, wallet: Seq<char>) -> bool {
    &&& values.len() == 2
    &&& values[0].name@ == ":glk"@
    &&& values[0].value@ == Scalar::S("token"@)
    &&& values[1].name@ == ":ownerAddress"@
    &&& values[1].value@ == Scalar::S(wallet)
}

/// The requests that find and write tokens, and the reading of their answers.
#[derive(Debug, Clone, Copy)]
pub struct Repository {}

impl Repository {
    /// The repository of tokens.
    pub fn new() -> Self {
        Repository {  }
    }

    /// The query for every token of a contract: the rows under the
    /// contract's key whose sort key is that of a token.
    pub fn get_all_by_contract(&self, address: &ContractId) -> (query: QueryRequest)
        ensures
            query.reads(TABLE_NAME@, None),
            query.key_conditions@.len() == 2,
            query.key_conditions@[0].is(
                "pk"@,
                ComparisonOperator::Eq,
                Scalar::S(key_text("contract"@, address@)),
            ),
            query.key_conditions@[1].is(
                "sk"@,
                ComparisonOperator::BeginsWith,
                Scalar::S(key_prefix("token"@)),
            ),
            query.filter_expression.is_none(),
            query.expression_attribute_values@.len() == 0,
            query.limit.is_none(),
            query.scan_index_forward.is_none(),
    {
        let mut key_conditions: Vec<KeyCondition> = Vec::new();
        key_conditions.push(
            KeyCondition {
                name: String::from_str("pk"),
                condition: condition_eq(address.to_attribute_value()),
            },
        );
        key_conditions.push(
            KeyCondition { name: String::from_str("sk"), condition: condition_sk_type::<TokenId>() },
        );
        QueryRequest {
            table_name: String::from_str(TABLE_NAME),
            index_name: None,
            key_conditions,
            filter_expression: None,
            expression_attribute_values: Vec::new(),
            limit: None,
            scan_index_forward: None,
        }
    }

    /// Reads the answer to the query for every token of a contract.
    pub fn read_all(&self, items: &Vec<Record>) -> (res: Result<Vec<Token>, AppError>)
        ensures
            match first_failure::<Token>(items@) {
                Some(e) => (res matches Err(err) && reports(err, e)),
                None => res.is_ok() && res.unwrap()@.len() == items@.len() && forall|i: int|
                    0 <= i < items@.len() ==> (#[trigger] res.unwrap()@[i]).reads_as(items@[i]@),
            },
    {
        read_all::<Token>(items)
    }

    /// The page query on the tokens of a contract with the given filter.
    fn page_query(
        address: &ContractId,
        filter: &str,
        values: Vec<Attribute>,
        cursor: Option<Cursor>,
        limit: i32,
        forward: bool,
    ) -> (query: QueryRequest)
        ensures
            pages_tokens_of(query, address@, cursor, limit, forward),
            query.filters_by(filter@),
            query.expression_attribute_values == values,
    {
        let mut key_conditions: Vec<KeyCondition> = Vec::new();
        key_conditions.push(
            KeyCondition {
                name: String::from_str("pk"),
                condition: condition_eq(address.to_attribute_value()),
            },
        );
        match cursor {
            Some(c) => {
                key_conditions.push(
                    KeyCondition {
                        name: String::from_str("createdAt"),
                        condition: condition_start_from(c, forward),
                    },
                );
            },
            None => {},
        }
        QueryRequest {
            table_name: String::from_str(TABLE_NAME),
            index_name: Some(String::from_str("pk-createdAt-index")),
            key_conditions,
            filter_expression: Some(String::from_str(filter)),
            expression_attribute_values: values,
            limit: Some(limit),
            scan_index_forward: Some(forward),
        }
    }

    /// The values that a filter on the kind and the owner refers to.
    fn kind_and_owner(wallet_address: &WalletAddress) -> (values: Vec<Attribute>)
        ensures
            names_kind_and_owner(values@, wallet_address@),
    {
        let mut values: Vec<Attribute> = Vec::new();
        values.push(
            Attribute { name: String::from_str(":glk"), value: AttributeValue::S(TokenId::typename()) },
        );
        values.push(
            Attribute {
                name: String::from_str(":ownerAddress"),
                value: AttributeValue::S(wallet_address.to_string()),
            },
        );
        values
    }

    /// The query for a page of the tokens of a contract, ordered by their
    /// creation time.
    pub fn get_by_contract_with_pager(
        &self,
        address: &ContractId,
        cursor: Option<Cursor>,
        limit: i32,
        forward: bool,
    ) -> (query: QueryRequest)
        ensures
            pages_tokens_of(query, address@, cursor, limit, forward),
            query.filters_by("glk = :glk"@),
            names_kind(query.expression_attribute_values@),
    {
        let mut values: Vec<Attribute> = Vec::new();
        values.push(
            Attribute { name: String::from_str(":glk"), value: AttributeValue::S(TokenId::typename()) },
        );
        Self::page_query(address, "glk = :glk", values, cursor, limit, forward)
    }

    /// The query for a page of the stock of a wallet under a contract: the
    /// tokens that the wallet holds and has not listed.
    pub fn get_stock_by_contract_with_pager(
        &self,
        address: &ContractId,
        wallet_address: &WalletAddress,
        cursor: Option<Cursor>,
        limit: i32,
        forward: bool,
    ) -> (query: QueryRequest)
        ensures
            pages_tokens_of(query, address@, cursor, limit, forward),
            query.filters_by(
                "glk = :glk AND ownerAddress = :ownerAddress AND attribute_not_exists(priceEth)"@,
            ),
            names_kind_and_owner(query.expression_attribute_values@, wallet_address@),
    {
        Self::page_query(
            address,
            "glk = :glk AND ownerAddress = :ownerAddress AND attribute_not_exists(priceEth)",
            Self::kind_and_owner(wallet_address),
            cursor,
            limit,
            forward,
        )
    }

    /// The query for a page of the sell orders of a wallet under a contract:
    /// the tokens that the wallet holds and has listed.
    pub fn get_sell_order_by_contract_with_pager(
        &self,
        address: &ContractId,
        wallet_address: &WalletAddress,
        cursor: Option<Cursor>,
        limit: i32,
        forward: bool,
    ) -> (query: QueryRequest)
        ensures
            pages_tokens_of(query, address@, cursor, limit, forward),
            query.filters_by(
                "glk = :glk AND ownerAddress = :ownerAddress AND attribute_exists(priceEth)"@,
            ),
            names_kind_and_owner(query.expression_attribute_values@, wallet_address@),
    {
        Self::page_query(
            address,
            "glk = :glk AND ownerAddress = :ownerAddress AND attribute_exists(priceEth)",
            Self::kind_and_owner(wallet_address),
            cursor,
            limit,
            forward,
        )
    }

    /// Reads the answer to a query for a page of tokens: every token with its
    /// creation time as its cursor.
    pub fn read_page(&self, items: &Vec<Record>) -> (res: Result<
        Vec<EntityWithCursor<Token>>,
        AppError,
    >)
        ensures
            match first_row_failure::<Token>(items@, Field::CreatedAt) {
                Some(e) => (res matches Err(err) && reports(err, e)),
                None => res.is_ok() && res.unwrap()@.len() == items@.len() && forall|i: int|
                    0 <= i < items@.len() ==> (#[trigger] res.unwrap()@[i]).reads_as(
                        items@[i]@,
                        Field::CreatedAt,
                    ),
            },
    {
        read_page::<Token>(items, Field::CreatedAt)
    }

    /// Reads the answer to a query for a page of stock, or of sell orders when
    /// `listed` is set, and keeps of the rows only those that the wallet holds
    /// with or without a price as asked, whatever the store let through.
    pub fn read_held_page(&self, items: &Vec<Record>, wallet_address: &WalletAddress, listed: bool) -> (res:
        Result<Vec<EntityWithCursor<Token>>, AppError>)
        ensures
            match first_row_failure::<Token>(items@, Field::CreatedAt) {
                Some(e) => (res matches Err(err) && reports(err, e)),
                None => res.is_ok() && exists|rows: Seq<EntityWithCursor<Token>>|
                    {
                        &&& rows.len() == items@.len()
                        &&& forall|i: int|
                            0 <= i < items@.len() ==> (#[trigger] rows[i]).reads_as(
                                items@[i]@,
                                Field::CreatedAt,
                            )
                        &&& res.unwrap()@ == held_rows(rows, wallet_address@, listed)
                    },
            },
    {
        match read_page::<Token>(items, Field::CreatedAt) {
            Err(e) => Err(e),
            Ok(rows) => {
                let kept = keep_held(&rows, wallet_address, listed);
                Ok(kept)
            },
        }
    }

    /// The query for the token of a contract that has the given image hash:
    /// at most one row.
    pub fn get_by_ipfs_image_hash(&self, address: &ContractId, ipfs_image_hash: String) -> (query:
        QueryRequest)
        ensures
            query.reads(TABLE_NAME@, Some("pk-ipfsImageHash-index"@)),
            query.key_conditions@.len() == 2,
            query.key_conditions@[0].is(
                "pk"@,
                ComparisonOperator::Eq,
                Scalar::S(key_text("contract"@, address@)),
            ),
            query.key_conditions@[1].is(
                "ipfsImageHash"@,
                ComparisonOperator::Eq,
                Scalar::S(ipfs_image_hash@),
            ),
            query.limit == Some(1i32),
            query.scan_index_forward.is_none(),
            query.filter_expression.is_none(),
            query.expression_attribute_values@.len() == 0,
    {
        let mut key_conditions: Vec<KeyCondition> = Vec::new();
        key_conditions.push(
            KeyCondition {
                name: String::from_str("pk"),
                condition: condition_eq(address.to_attribute_value()),
            },
        );
        key_conditions.push(
            KeyCondition {
                name: String::from_str("ipfsImageHash"),
                condition: condition_eq(AttributeValue::S(ipfs_image_hash)),
            },
        );
        QueryRequest {
            table_name: String::from_str(TABLE_NAME),
            index_name: Some(String::from_str("pk-ipfsImageHash-index")),
            key_conditions,
            filter_expression: None,
            expression_attribute_values: Vec::new(),
            limit: Some(1),
            scan_index_forward: None,
        }
    }

    /// Reads the answer to the query by image hash. No row means that no
    /// token of the contract has the image: `NotFound`.
    pub fn read_by_ipfs_image_hash(&self, items: &Vec<Record>) -> (res: Result<Token, AppError>)
        ensures
            items@.len() == 0 ==> (res matches Err(err) && err.kind == Kind::NotFound),
            items@.len() > 0 ==> match Token::failure(items@[0]@) {
                Some(e) => (res matches Err(err) && reports(err, e)),
                None => res.is_ok() && res.unwrap().reads_as(items@[0]@),
            },
    {
        read_first::<Token>(items)
    }

    /// The lookup of the token `token_id` of the contract `address`.
    pub fn get(&self, address: &ContractId, token_id: &TokenId) -> (request: GetItemRequest)
        ensures
            request.table_name@ == TABLE_NAME@,
            request.key@ == token_key(address@, token_id@),
    {
        let mut key = Record::new();
        key.insert(String::from_str("pk"), address.to_attribute_value());
        key.insert(String::from_str("sk"), token_id.to_attribute_value());
        GetItemRequest { table_name: String::from_str(TABLE_NAME), key }
    }

    /// Reads the answer to a lookup of one token: `NotFound` when nothing is
    /// stored under the key.
    pub fn read_one(&self, item: Option<Record>) -> (res: Result<Token, AppError>)
        ensures
            match item {
                None => (res matches Err(err) && err.kind == Kind::NotFound),
                Some(rec) => match Token::failure(rec@) {
                    Some(e) => (res matches Err(err) && reports(err, e)),
                    None => res.is_ok() && res.unwrap().reads_as(rec@),
                },
            },
    {
        read_one::<Token>(item)
    }

    /// The write of a token: its record under its table, without a condition.
    pub fn put(&self, item: Token) -> (request: PutItemRequest)
        ensures
            request.table_name@ == TABLE_NAME@,
            request.item@ == token_record(item@),
    {
        PutItemRequest { table_name: String::from_str(TABLE_NAME), item: item.into() }
    }
}

} // verus!
