//! Contracts in the table: their record form and the requests that find them.

use vstd::prelude::*;
use vstd::string::StringExecFns;
use crate::ddb::codec::{DecodeError, Field, key_at, read_key, read_string, read_time, string_at, time_at};
use crate::ddb::key::{PrimaryKey, key_text, lemma_key_round_trip};
use crate::ddb::query::{
    BatchGetRequest,
    ComparisonOperator,
    Entity,
    EntityWithCursor,
    GetItemRequest,
    KeyCondition,
    PutItemRequest,
    QueryRequest,
    TableItems,
    condition_eq,
    condition_start_from,
    first_failure,
    first_row_failure,
    read_all,
    read_first,
    read_one,
    read_page,
    reports,
};
use crate::ddb::record::{AttributeValue, Record, Scalar};
use crate::errors::{AppError, Kind};
use crate::pagination::Cursor;
use crate::text::text_eq;
use crate::domain::contract::{Contract, ContractId, ContractView, Network, Schema, WalletAddress};
use crate::domain::time::rfc3339_accepted;
use crate::text::join3;

verus! {

/// The table that holds contracts and tokens.
pub const TABLE_NAME: &'static str = "cng-contract";

/// The value of the index attribute that finds the contracts of one wallet
/// under one standard: the wallet's address, an underscore and the standard's
/// name.
pub open spec fn wallet_schema_key(wallet_address: Seq<char>, schema: Schema) -> Seq<char> {
    wallet_address + "_"@ + schema.name()
}

/// Builds the value of the index attribute for a wallet and a standard.
pub fn wallet_address_with_schema(wallet_address: &WalletAddress, schema: Schema) -> (key: String)
    ensures
        key@ == wallet_schema_key(wallet_address@, schema),
{
    let name = schema.to_string();
    join3(wallet_address.0.as_str(), "_", name.as_str())
}

/// The index attribute tells wallets and standards apart: two pairs with the
/// same value are the same pair, whatever characters the addresses hold.
pub proof fn lemma_wallet_schema_key_injective(
    w1: Seq<char>,
    s1: Schema,
    w2: Seq<char>,
    s2: Schema,
)
    requires
        wallet_schema_key(w1, s1) == wallet_schema_key(w2, s2),
    ensures
        w1 == w2,
        s1 == s2,
{
    reveal_strlit("_");
    reveal_strlit("ERC721");
    reveal_strlit("ERC1155");
    let k1 = wallet_schema_key(w1, s1);
    let k2 = wallet_schema_key(w2, s2);
    assert(k1.last() == s1.name().last());
    assert(k2.last() == s2.name().last());
    assert(s1 == s2);
    assert(k1.len() == w1.len() + 1 + s1.name().len());
    assert(k2.len() == w2.len() + 1 + s2.name().len());
    assert(w1 =~= k1.subrange(0, w1.len() as int));
    assert(w2 =~= k2.subrange(0, w2.len() as int));
}

/// The record form of a contract.
pub open spec fn contract_record(c: ContractView) -> Map<Seq<char>, Scalar> {
    Map::<Seq<char>, Scalar>::empty().insert(
        Field::WalletAddress.name(),
        Scalar::S(c.wallet_address),
    ).insert(Field::Schema.name(), Scalar::S(c.schema.name())).insert(
        Field::Network.name(),
        Scalar::S(c.network.name()),
    ).insert(Field::Abi.name(), Scalar::S(c.abi)).insert(
        Field::CreatedAt.name(),
        Scalar::S(c.created_at),
    ).insert(Field::Glk.name(), Scalar::S("contract"@)).insert(
        Field::WalletAddressSchema.name(),
        Scalar::S(wallet_schema_key(c.wallet_address, c.schema)),
    ).insert(Field::Pk.name(), Scalar::S(key_text("contract"@, c.address)))
}

/// The names of the attributes of the record of a contract.
pub open spec fn contract_fields() -> Set<Seq<char>> {
    set![
        Field::Pk.name(),
        Field::WalletAddress.name(),
        Field::Schema.name(),
        Field::Network.name(),
        Field::Abi.name(),
        Field::CreatedAt.name(),
        Field::Glk.name(),
        Field::WalletAddressSchema.name(),
    ]
}

/// The record of a contract holds these eight attributes and no other.
pub proof fn lemma_contract_record_fields(c: ContractView)
    ensures
        contract_record(c).dom() == contract_fields(),
{
    assert(contract_record(c).dom() =~= contract_fields());
}

/// What it is to read a standard from a record.
pub open spec fn schema_at(rec: Map<Seq<char>, Scalar>) -> Result<Schema, DecodeError> {
    match string_at(rec, Field::Schema) {
        Err(e) => Err(e),
        Ok(s) => match Schema::named(s) {
            Some(schema) => Ok(schema),
            None => Err(DecodeError::InvalidEnum(Field::Schema)),
        },
    }
}

/// What it is to read a ledger from a record.
pub open spec fn network_at(rec: Map<Seq<char>, Scalar>) -> Result<Network, DecodeError> {
    match string_at(rec, Field::Network) {
        Err(e) => Err(e),
        Ok(s) => match Network::named(s) {
            Some(network) => Ok(network),
            None => Err(DecodeError::InvalidEnum(Field::Network)),
        },
    }
}

/// The contract that a record holds, or the first failure met when its
/// attributes are read in the order address, wallet, standard, ledger,
/// interface, creation time.
pub open spec fn contract_of(rec: Map<Seq<char>, Scalar>) -> Result<ContractView, DecodeError> {
    match key_at(rec, Field::Pk, "contract"@) {
        Err(e) => Err(e),
        Ok(address) => match string_at(rec, Field::WalletAddress) {
            Err(e) => Err(e),
            Ok(wallet_address) => match schema_at(rec) {
                Err(e) => Err(e),
                Ok(schema) => match network_at(rec) {
                    Err(e) => Err(e),
                    Ok(network) => match string_at(rec, Field::Abi) {
                        Err(e) => Err(e),
                        Ok(abi) => match time_at(rec, Field::CreatedAt) {
                            Err(e) => Err(e),
                            Ok(created_at) => Ok(
                                ContractView {
                                    address,
                                    wallet_address,
                                    schema,
                                    network,
                                    abi,
                                    created_at,
                                },
                            ),
                        },
                    },
                },
            },
        },
    }
}

/// Reading the record form of a contract gives the contract back.
pub proof fn lemma_contract_round_trip(c: ContractView)
    requires
        rfc3339_accepted(c.created_at),
    ensures
        contract_of(contract_record(c)) == Ok::<ContractView, DecodeError>(c),
{
    Field::lemma_names_distinct();
    lemma_key_round_trip("contract"@, c.address);
    c.schema.lemma_name_round_trip();
    c.network.lemma_name_round_trip();
    let rec = contract_record(c);
    assert(key_at(rec, Field::Pk, "contract"@) == Ok::<Seq<char>, DecodeError>(c.address));
    assert(string_at(rec, Field::WalletAddress) == Ok::<Seq<char>, DecodeError>(c.wallet_address));
    assert(schema_at(rec) == Ok::<Schema, DecodeError>(c.schema));
    assert(network_at(rec) == Ok::<Network, DecodeError>(c.network));
    assert(string_at(rec, Field::Abi) == Ok::<Seq<char>, DecodeError>(c.abi));
    assert(time_at(rec, Field::CreatedAt) == Ok::<Seq<char>, DecodeError>(c.created_at));
}

impl Contract {
    /// Reads a contract from its record.
    ///
    /// Every attribute of the contract is required. The first attribute that
    /// is absent, of the wrong kind or malformed decides the failure.
    pub fn try_from(v: Record) -> (res: Result<Contract, DecodeError>)
        ensures
            match contract_of(v@) {
                Ok(c) => res.is_ok() && res.unwrap()@ == c && res.unwrap().wf(),
                Err(e) => res.is_err() && res.unwrap_err() == e,
            },
    {
        let address = match read_key(&v, Field::Pk, "contract") {
            Ok(raw) => ContractId::new(raw),
            Err(e) => {
                return Err(e);
            },
        };
        let wallet_address = match read_string(&v, Field::WalletAddress) {
            Ok(raw) => WalletAddress::from(raw),
            Err(e) => {
                return Err(e);
            },
        };
        let schema = match read_string(&v, Field::Schema) {
            Ok(raw) => match Schema::from_str(raw.as_str()) {
                Some(schema) => schema,
                None => {
                    return Err(DecodeError::InvalidEnum(Field::Schema));
                },
            },
            Err(e) => {
                return Err(e);
            },
        };
        let network = match read_string(&v, Field::Network) {
            Ok(raw) => match Network::from_str(raw.as_str()) {
                Some(network) => network,
                None => {
                    return Err(DecodeError::InvalidEnum(Field::Network));
                },
            },
            Err(e) => {
                return Err(e);
            },
        };
        let abi = match read_string(&v, Field::Abi) {
            Ok(raw) => raw,
            Err(e) => {
                return Err(e);
            },
        };
        let created_at = match read_time(&v, Field::CreatedAt) {
            Ok(t) => t,
            Err(e) => {
                return Err(e);
            },
        };
        Ok(Contract { address, wallet_address, schema, network, abi, created_at })
    }

    /// Writes the contract as its record: every field under its attribute, the
    /// kind under `glk`, and the index attribute of wallet and standard.
    pub fn into(self) -> (record: Record)
        ensures
            record@ == contract_record(self@),
    {
        let mut record = Record::new();
        record.insert(
            Field::WalletAddress.to_string(),
            AttributeValue::S(self.wallet_address.to_string()),
        );
        record.insert(Field::Schema.to_string(), AttributeValue::S(self.schema.to_string()));
        record.insert(Field::Network.to_string(), AttributeValue::S(self.network.to_string()));
        record.insert(Field::Abi.to_string(), AttributeValue::S(self.abi));
        record.insert(Field::CreatedAt.to_string(), AttributeValue::S(self.created_at.to_rfc3339()));
        record.insert(Field::Glk.to_string(), AttributeValue::S(ContractId::typename()));
        record.insert(
            Field::WalletAddressSchema.to_string(),
            AttributeValue::S(wallet_address_with_schema(&self.wallet_address, self.schema)),
        );
        record.insert(Field::Pk.to_string(), self.address.to_attribute_value());
        record
    }
}

impl Entity for Contract {
    open spec fn failure(rec: Map<Seq<char>, Scalar>) -> Option<DecodeError> {
        match contract_of(rec) {
            Err(e) => Some(e),
            Ok(_) => None,
        }
    }

    open spec fn reads_as(&self, rec: Map<Seq<char>, Scalar>) -> bool {
        contract_of(rec) == Ok::<ContractView, DecodeError>(self@) && self.wf()
    }

    fn from_record(rec: Record) -> (res: Result<Self, DecodeError>) {
        Contract::try_from(rec)
    }
}

/// The record of a contract carries the partition key under which the
/// contract is looked up. The sort key of the lookup is the same for every
/// contract and is no part of the record.
pub proof fn lemma_contract_record_has_its_key(c: ContractView)
    ensures
        contract_record(c).contains_key("pk"@),
        contract_record(c)["pk"@] == contract_key(c.address)["pk"@],
        !contract_record(c).contains_key("sk"@),
        contract_key(c.address)["sk"@] == Scalar::S("#"@),
{
    Field::lemma_names_distinct();
    assert(Field::Pk.name() == "pk"@);
    assert(Field::Sk.name() == "sk"@);
    reveal_strlit("pk");
    reveal_strlit("sk");
    assert("pk"@ != "sk"@) by {
        assert("pk"@[0] != "sk"@[0]);
    }
}

/// The addresses of a list without repetitions: each address where it first
/// occurs.
pub open spec fn first_occurrences(ids: Seq<ContractId>) -> Seq<Seq<char>>
    decreases ids.len(),
{
    if ids.len() == 0 {
        Seq::empty()
    } else if first_occurrences(ids.drop_last()).contains(ids.last()@) {
        first_occurrences(ids.drop_last())
    } else {
        first_occurrences(ids.drop_last()).push(ids.last()@)
    }
}

/// The list of first occurrences names each address once, and names exactly
/// the addresses of the list.
pub proof fn lemma_first_occurrences(ids: Seq<ContractId>)
    ensures
        first_occurrences(ids).no_duplicates(),
        forall|a: Seq<char>|
            first_occurrences(ids).contains(a) <==> exists|i: int|
                0 <= i < ids.len() && #[trigger] ids[i]@ == a,
    decreases ids.len(),
{
    if ids.len() > 0 {
        let front = ids.drop_last();
        lemma_first_occurrences(front);
        let kept = first_occurrences(front);
        let all = first_occurrences(ids);
        assert forall|a: Seq<char>| all.contains(a) <==> exists|i: int|
            0 <= i < ids.len() && #[trigger] ids[i]@ == a by {
            if all.contains(a) {
                if kept.contains(a) {
                    let i = choose|i: int| 0 <= i < front.len() && #[trigger] front[i]@ == a;
                    assert(ids[i]@ == a);
                } else {
                    assert(all == kept.push(ids.last()@));
                    let k = choose|k: int| 0 <= k < all.len() && all[k] == a;
                    if k < kept.len() {
                        assert(kept[k] == a);
                    }
                    assert(ids[ids.len() - 1]@ == a);
                }
            }
            if exists|i: int| 0 <= i < ids.len() && #[trigger] ids[i]@ == a {
                let i = choose|i: int| 0 <= i < ids.len() && #[trigger] ids[i]@ == a;
                if i < front.len() {
                    assert(front[i]@ == a);
                    assert(kept.contains(a));
                    let k = choose|k: int| 0 <= k < kept.len() && kept[k] == a;
                    assert(all[k] == a);
                } else {
                    if kept.contains(a) {
                    } else {
                        assert(all[all.len() - 1] == a);
                    }
                }
            }
        }
    }
}

/// The key of the row of the contract with the address `address`.
pub open spec fn contract_key(address: Seq<char>) -> Map<Seq<char>, Scalar> {
    Map::<Seq<char>, Scalar>::empty().insert("pk"@, Scalar::S(key_text("contract"@, address))).insert(
        "sk"@,
        Scalar::S("#"@),
    )
}

/// The rows that a batch lookup found in the table `table`, in the order of
/// the answer.
pub open spec fn rows_of(responses: Seq<TableItems>, table: Seq<char>) -> Seq<Record>
    decreases responses.len(),
{
    if responses.len() == 0 {
        Seq::empty()
    } else if responses.last().table_name@ == table {
        rows_of(responses.drop_last(), table) + responses.last().items@
    } else {
        rows_of(responses.drop_last(), table)
    }
}

/// The requests that find and write contracts, and the reading of their
/// answers.
#[derive(Debug, Clone, Copy)]
pub struct Repository {}

impl Repository {
    /// The repository of contracts.
    pub fn new() -> Self {
        Repository {  }
    }

    /// The query for every contract.
    pub fn get_all(&self) -> (query: QueryRequest)
        ensures
            query.reads(TABLE_NAME@, Some("glk-createdAt-index"@)),
            query.key_conditions@.len() == 1,
            query.key_conditions@[0].is("glk"@, ComparisonOperator::Eq, Scalar::S("contract"@)),
            query.filter_expression.is_none(),
            query.expression_attribute_values@.len() == 0,
            query.limit.is_none(),
            query.scan_index_forward.is_none(),
    {
        let mut key_conditions: Vec<KeyCondition> = Vec::new();
        key_conditions.push(
            KeyCondition {
                name: String::from_str("glk"),
                condition: condition_eq(AttributeValue::S(ContractId::typename())),
            },
        );
        QueryRequest {
            table_name: String::from_str(TABLE_NAME),
            index_name: Some(String::from_str("glk-createdAt-index")),
            key_conditions,
            filter_expression: None,
            expression_attribute_values: Vec::new(),
            limit: None,
            scan_index_forward: None,
        }
    }

    /// Reads the answer to the query for every contract.
    pub fn read_all(&self, items: &Vec<Record>) -> (res: Result<Vec<Contract>, AppError>)
        ensures
            match first_failure::<Contract>(items@) {
                Some(e) => (res matches Err(err) && reports(err, e)),
                None => res.is_ok() && res.unwrap()@.len() == items@.len() && forall|i: int|
                    0 <= i < items@.len() ==> (#[trigger] res.unwrap()@[i]).reads_as(items@[i]@),
            },
    {
        read_all::<Contract>(items)
    }

    /// The query for a page of the contracts of a wallet, ordered by their
    /// creation time.
    pub fn get_by_wallet_address_with_pager(
        &self,
        wallet_address: &WalletAddress,
        cursor: Option<Cursor>,
        limit: i32,
        forward: bool,
    ) -> (query: QueryRequest)
        ensures
            query.reads(TABLE_NAME@, Some("walletAddress-createdAt-index"@)),
            query.key_conditions@.len() >= 1,
            query.key_conditions@[0].is(
                "walletAddress"@,
                ComparisonOperator::Eq,
                Scalar::S(wallet_address@),
            ),
            query.pages(1, "createdAt"@, cursor, limit, forward),
            query.filter_expression.is_none(),
            query.expression_attribute_values@.len() == 0,
    {
        let mut key_conditions: Vec<KeyCondition> = Vec::new();
        key_conditions.push(
            KeyCondition {
                name: String::from_str("walletAddress"),
                condition: condition_eq(AttributeValue::S(wallet_address.to_string())),
            },
        );
        match cursor {
            Some(c) => {
                key_conditions.push(
                    KeyCondition {
                        name: String::from_str("createdAt"),
                        condition: condition_start_from(c, forward),
                    },
                );
            },
            None => {},
        }
        QueryRequest {
            table_name: String::from_str(TABLE_NAME),
            index_name: Some(String::from_str("walletAddress-createdAt-index")),
            key_conditions,
            filter_expression: None,
            expression_attribute_values: Vec::new(),
            limit: Some(limit),
            scan_index_forward: Some(forward),
        }
    }

    /// Reads the answer to a query for a page of contracts: every contract
    /// with its creation time as its cursor.
    pub fn read_page(&self, items: &Vec<Record>) -> (res: Result<
        Vec<EntityWithCursor<Contract>>,
        AppError,
    >)
        ensures
            match first_row_failure::<Contract>(items@, Field::CreatedAt) {
                Some(e) => (res matches Err(err) && reports(err, e)),
                None => res.is_ok() && res.unwrap()@.len() == items@.len() && forall|i: int|
                    0 <= i < items@.len() ==> (#[trigger] res.unwrap()@[i]).reads_as(
                        items@[i]@,
                        Field::CreatedAt,
                    ),
            },
    {
        read_page::<Contract>(items, Field::CreatedAt)
    }

    /// The query for the latest contract of a wallet under a standard: one
    /// row, newest first.
    pub fn get_latest_by_wallet_address_and_schema(
        &self,
        wallet_address: &WalletAddress,
        schema: &Schema,
    ) -> (query: QueryRequest)
        ensures
            query.reads(TABLE_NAME@, Some("walletAddress_schema-createdAt-index"@)),
            query.key_conditions@.len() == 1,
            query.key_conditions@[0].is(
                "walletAddress_schema"@,
                ComparisonOperator::Eq,
                Scalar::S(wallet_schema_key(wallet_address@, *schema)),
            ),
            query.limit == Some(1i32),
            query.scan_index_forward == Some(false),
            query.filter_expression.is_none(),
            query.expression_attribute_values@.len() == 0,
    {
        let mut key_conditions: Vec<KeyCondition> = Vec::new();
        key_conditions.push(
            KeyCondition {
                name: String::from_str("walletAddress_schema"),
                condition: condition_eq(
                    AttributeValue::S(wallet_address_with_schema(wallet_address, *schema)),
                ),
            },
        );
        QueryRequest {
            table_name: String::from_str(TABLE_NAME),
            index_name: Some(String::from_str("walletAddress_schema-createdAt-index")),
            key_conditions,
            filter_expression: None,
            expression_attribute_values: Vec::new(),
            limit: Some(1),
            scan_index_forward: Some(false),
        }
    }

    /// The query for the latest contract under a standard, whoever owns it:
    /// one row, newest first.
    pub fn get_latest_by_schema(&self, schema: &Schema) -> (query: QueryRequest)
        ensures
            query.reads(TABLE_NAME@, Some("schema-createdAt-index"@)),
            query.key_conditions@.len() == 1,
            query.key_conditions@[0].is("schema"@, ComparisonOperator::Eq, Scalar::S(schema.name())),
            query.limit == Some(1i32),
            query.scan_index_forward == Some(false),
            query.filter_expression.is_none(),
            query.expression_attribute_values@.len() == 0,
    {
        let mut key_conditions: Vec<KeyCondition> = Vec::new();
        key_conditions.push(
            KeyCondition {
                name: String::from_str("schema"),
                condition: condition_eq(AttributeValue::S(schema.to_string())),
            },
        );
        QueryRequest {
            table_name: String::from_str(TABLE_NAME),
            index_name: Some(String::from_str("schema-createdAt-index")),
            key_conditions,
            filter_expression: None,
            expression_attribute_values: Vec::new(),
            limit: Some(1),
            scan_index_forward: Some(false),
        }
    }

    /// Reads the answer to the query for the latest contract. No row means
    /// that the wallet has no contract under the standard yet: `NotFound`.
    pub fn read_latest(&self, items: &Vec<Record>) -> (res: Result<Contract, AppError>)
        ensures
            items@.len() == 0 ==> (res matches Err(err) && err.kind == Kind::NotFound),
            items@.len() > 0 ==> match Contract::failure(items@[0]@) {
                Some(e) => (res matches Err(err) && reports(err, e)),
                None => res.is_ok() && res.unwrap().reads_as(items@[0]@),
            },
    {
        read_first::<Contract>(items)
    }

    /// The lookup of several contracts at once, or `None` when no address is
    /// asked for, so that no request is made. Each address is looked up once,
    /// however often the list names it.
    pub fn batch_get(&self, addresses: &Vec<ContractId>) -> (request: Option<BatchGetRequest>)
        ensures
            request.is_none() <==> addresses@.len() == 0,
            request matches Some(r) ==> {
                &&& r.table_name@ == TABLE_NAME@
                &&& r.keys@.len() == first_occurrences(addresses@).len()
                &&& forall|k: int|
                    0 <= k < r.keys@.len() ==> (#[trigger] r.keys@[k])@ == contract_key(
                        first_occurrences(addresses@)[k],
                    )
            },
    {
        if addresses.len() == 0 {
            return None;
        }
        let mut seen: Vec<String> = Vec::new();
        let mut keys: Vec<Record> = Vec::new();
        let mut i: usize = 0;
        while i < addresses.len()
            invariant
                0 <= i <= addresses.len(),
                seen@.len() == keys@.len(),
                seen@.len() == first_occurrences(addresses@.take(i as int)).len(),
                forall|k: int|
                    0 <= k < seen@.len() ==> (#[trigger] seen@[k])@ == first_occurrences(
                        addresses@.take(i as int),
                    )[k],
                forall|k: int|
                    0 <= k < keys@.len() ==> (#[trigger] keys@[k])@ == contract_key(
                        first_occurrences(addresses@.take(i as int))[k],
                    ),
            decreases addresses.len() - i,
        {
            let ghost before = first_occurrences(addresses@.take(i as int));
            assert(addresses@.take(i + 1).drop_last() =~= addresses@.take(i as int));
            let mut known = false;
            let mut j: usize = 0;
            while j < seen.len()
                invariant
                    0 <= j <= seen.len(),
                    0 <= i < addresses.len(),
                    seen@.len() == before.len(),
                    forall|k: int| 0 <= k < seen@.len() ==> (#[trigger] seen@[k])@ == before[k],
                    known <==> exists|k: int| 0 <= k < j && before[k] == addresses@[i as int]@,
                decreases seen.len() - j,
            {
                if text_eq(seen[j].as_str(), addresses[i].as_str()) {
                    known = true;
                    assert(before[j as int] == addresses@[i as int]@);
                }
                j += 1;
            }
            assert(known == before.contains(addresses@[i as int]@));
            if !known {
                seen.push(addresses[i].to_string());
                keys.push(addresses[i].key_map());
            }
            i += 1;
        }
        assert(addresses@.take(i as int) =~= addresses@);
        Some(BatchGetRequest { table_name: String::from_str(TABLE_NAME), keys })
    }

    /// Reads the answer to a batch lookup: the contracts found under the
    /// table of contracts. An address under which nothing is stored is
    /// missing from the answer, and so from the result.
    pub fn read_batch(&self, responses: &Vec<TableItems>) -> (res: Result<Vec<Contract>, AppError>)
        ensures
            match first_failure::<Contract>(rows_of(responses@, TABLE_NAME@)) {
                Some(e) => (res matches Err(err) && reports(err, e)),
                None => res.is_ok() && res.unwrap()@.len() == rows_of(
                    responses@,
                    TABLE_NAME@,
                ).len() && forall|i: int|
                    0 <= i < res.unwrap()@.len() ==> (#[trigger] res.unwrap()@[i]).reads_as(
                        rows_of(responses@, TABLE_NAME@)[i]@,
                    ),
            },
    {
        let mut rows: Vec<Record> = Vec::new();
        let mut i: usize = 0;
        while i < responses.len()
            invariant
                0 <= i <= responses.len(),
                rows@.len() == rows_of(responses@.take(i as int), TABLE_NAME@).len(),
                forall|k: int|
                    0 <= k < rows@.len() ==> (#[trigger] rows@[k])@ == rows_of(
                        responses@.take(i as int),
                        TABLE_NAME@,
                    )[k]@,
            decreases responses.len() - i,
        {
            assert(responses@.take(i + 1).drop_last() =~= responses@.take(i as int));
            if text_eq(responses[i].table_name.as_str(), TABLE_NAME) {
                let ghost before = rows@;
                let items = &responses[i].items;
                let mut j: usize = 0;
                while j < items.len()
                    invariant
                        0 <= j <= items.len(),
                        rows@.len() == before.len() + j,
                        forall|k: int| 0 <= k < before.len() ==> rows@[k] == before[k],
                        forall|k: int|
                            before.len() <= k < rows@.len() ==> (#[trigger] rows@[k])@ == items@[k
                                - before.len()]@,
                    decreases items.len() - j,
                {
                    rows.push(items[j].clone());
                    j += 1;
                }
                proof {
                    let found = rows_of(responses@.take(i as int), TABLE_NAME@);
                    let all = rows_of(responses@.take(i + 1), TABLE_NAME@);
                    assert(responses@.take(i + 1).last() == responses@[i as int]);
                    assert(all == found + items@);
                    assert forall|k: int| 0 <= k < rows@.len() implies (#[trigger] rows@[k])@
                        == all[k]@ by {
                        if k < before.len() {
                            assert(rows@[k] == before[k]);
                        } else {
                            assert(all[k] == items@[k - before.len()]);
                        }
                    }
                }
            } else {
                assert(responses@.take(i + 1).last() == responses@[i as int]);
            }
            i += 1;
        }
        assert(responses@.take(i as int) =~= responses@);
        let res = read_all::<Contract>(&rows);
        proof {
            lemma_same_rows_same_failure::<Contract>(rows@, rows_of(responses@, TABLE_NAME@));
        }
        res
    }

    /// The lookup of the contract with the address `address`.
    pub fn get(&self, address: &ContractId) -> (request: GetItemRequest)
        ensures
            request.table_name@ == TABLE_NAME@,
            request.key@ == contract_key(address@),
    {
        GetItemRequest { table_name: String::from_str(TABLE_NAME), key: address.key_map() }
    }

    /// Reads the answer to a lookup of one contract: `NotFound` when nothing
    /// is stored under the address.
    pub fn read_one(&self, item: Option<Record>) -> (res: Result<Contract, AppError>)
        ensures
            match item {
                None => (res matches Err(err) && err.kind == Kind::NotFound),
                Some(rec) => match Contract::failure(rec@) {
                    Some(e) => (res matches Err(err) && reports(err, e)),
                    None => res.is_ok() && res.unwrap().reads_as(rec@),
                },
            },
    {
        read_one::<Contract>(item)
    }

    /// The write of a contract: its record under its table, without a
    /// condition.
    pub fn put(&self, item: Contract) -> (request: PutItemRequest)
        ensures
            request.table_name@ == TABLE_NAME@,
            request.item@ == contract_record(item@),
    {
        PutItemRequest { table_name: String::from_str(TABLE_NAME), item: item.into() }
    }
}

/// Rows that hold the same attributes one by one fail, or do not fail, alike.
pub proof fn lemma_same_rows_same_failure<E: Entity>(a: Seq<Record>, b: Seq<Record>)
    requires
        a.len() == b.len(),
        forall|k: int| 0 <= k < a.len() ==> (#[trigger] a[k])@ == b[k]@,
    ensures
        first_failure::<E>(a) == first_failure::<E>(b),
    decreases a.len(),
{
    if a.len() > 0 {
        lemma_same_rows_same_failure::<E>(a.drop_last(), b.drop_last());
    }
}

} // verus!
