use canvas_nft::ddb::contract::Repository as ContractRepository;
use canvas_nft::ddb::query::{
    ComparisonOperator, GetItemRequest, QueryRequest, TableItems,
};
use canvas_nft::ddb::token::{keep_held, Repository as TokenRepository};
use canvas_nft::ddb::{
    condition_contains, condition_eq, condition_sk_type, condition_start_from, AttributeValue, Cursor,
    EntityWithCursor, Field, Record,
};
use canvas_nft::domain::contract::{Contract, ContractId, Schema, WalletAddress};
use canvas_nft::domain::price::Price;
use canvas_nft::domain::time::LocalDateTime;
use canvas_nft::domain::token::{Token, TokenId};
use canvas_nft::errors::Kind;
use canvas_nft::pagination::Pagination;

fn text(value: &AttributeValue) -> String {
    match value {
        AttributeValue::S(v) => v.clone(),
        AttributeValue::N(v) => v.clone(),
        AttributeValue::Other => panic!("no text"),
    }
}

fn attr(rec: &Record, name: &str) -> Option<String> {
    rec.get(name).map(text)
}

/// Answers a query as the table would: rows that meet every key condition, in
/// the order of the sort attribute, cut at the limit.
fn run(table: &[Record], query: &QueryRequest, sort: &str) -> Vec<Record> {
    let mut rows: Vec<Record> = table
        .iter()
        .filter(|row| {
            query.key_conditions.iter().all(|kc| {
                let want = text(&kc.condition.attribute_value);
                match attr(row, &kc.name) {
                    None => false,
                    Some(have) => match kc.condition.comparison_operator {
                        ComparisonOperator::Eq => have == want,
                        ComparisonOperator::BeginsWith => have.starts_with(&want),
                        ComparisonOperator::Contains => have.contains(&want),
                        ComparisonOperator::Gt => have > want,
                        ComparisonOperator::Lt => have < want,
                    },
                }
            })
        })
        .cloned()
        .collect();
    rows.sort_by_key(|row| attr(row, sort).unwrap_or_default());
    if query.scan_index_forward == Some(false) {
        rows.reverse();
    }
    if let Some(limit) = query.limit {
        rows.truncate(limit as usize);
    }
    rows
}

fn contract(n: u32, wallet: &str) -> Contract {
    Contract::new(
        ContractId::new(format!("0xC{}", n)),
        WalletAddress::from(wallet.to_string()),
        "[]".to_string(),
        LocalDateTime::parse(&format!("2023-04-0{}T00:00:00+09:00", n)).unwrap(),
    )
}

fn token(n: u32, owner: &str, price: Option<&str>) -> Token {
    let t = Token::new(
        ContractId::new("0xC1".to_string()),
        TokenId::new(n.to_string()),
        format!("w{}", n),
        format!("Qm{}", n),
        format!("w{}", n),
        "canvas nft".to_string(),
        WalletAddress::from(owner.to_string()),
        LocalDateTime::parse(&format!("2023-05-0{}T00:00:00+09:00", n)).unwrap(),
    );
    match price {
        Some(p) => t.update_price(Price::parse(p).unwrap()),
        None => t,
    }
}

/// The row of a contract as it is sent to the table: its record, and the sort
/// key under which contracts are looked up.
fn contract_row(c: Contract) -> Record {
    let mut row = ContractRepository::new().put(c).item;
    row.insert("sk".into(), AttributeValue::S("#".into()));
    row
}

fn five_contracts() -> Vec<Record> {
    let mut table: Vec<Record> = (1..=5).map(|n| contract_row(contract(n, "0xW1"))).collect();
    table.push(contract_row(contract(9, "0xW2")));
    table
}

fn addresses(rows: &[EntityWithCursor<Contract>]) -> Vec<String> {
    rows.iter().map(|r| r.entity.address.to_string()).collect()
}

#[test]
fn paging_over_five_contracts_returns_two_then_the_next_two() {
    let repo = ContractRepository::new();
    let table = five_contracts();
    let wallet = WalletAddress::from("0xW1".to_string());

    let paging = Pagination::calc(None, None, Some(2), None, 20).unwrap();
    let query = repo.get_by_wallet_address_with_pager(&wallet, paging.cursor.clone(), paging.limit, paging.forward);
    let rows = repo.read_page(&run(&table, &query, "createdAt")).unwrap();
    let page = paging.connection(rows);
    assert_eq!(addresses(&page.edges), vec!["0xC1", "0xC2"]);
    assert!(page.has_next_page);
    assert!(!page.has_previous_page);

    let cursor_of_second = page.edges[1].cursor.0.clone();
    assert_eq!(cursor_of_second, "2023-04-02T00:00:00+09:00");
    let paging = Pagination::calc(Some(cursor_of_second), None, Some(2), None, 20).unwrap();
    let query = repo.get_by_wallet_address_with_pager(&wallet, paging.cursor.clone(), paging.limit, paging.forward);
    let rows = repo.read_page(&run(&table, &query, "createdAt")).unwrap();
    let page = paging.connection(rows);
    assert_eq!(addresses(&page.edges), vec!["0xC3", "0xC4"]);
    assert!(page.has_next_page);
    assert!(page.has_previous_page);

    let cursor_of_fourth = page.edges[1].cursor.0.clone();
    let paging = Pagination::calc(Some(cursor_of_fourth), None, Some(2), None, 20).unwrap();
    let query = repo.get_by_wallet_address_with_pager(&wallet, paging.cursor.clone(), paging.limit, paging.forward);
    let rows = repo.read_page(&run(&table, &query, "createdAt")).unwrap();
    let page = paging.connection(rows);
    assert_eq!(addresses(&page.edges), vec!["0xC5"]);
    assert!(!page.has_next_page);
    assert!(page.has_previous_page);
}

#[test]
fn paging_backward_before_a_cursor() {
    let repo = ContractRepository::new();
    let table = five_contracts();
    let wallet = WalletAddress::from("0xW1".to_string());
    let paging = Pagination::calc(None, Some("2023-04-04T00:00:00+09:00".into()), None, Some(2), 20).unwrap();
    let query = repo.get_by_wallet_address_with_pager(&wallet, paging.cursor.clone(), paging.limit, paging.forward);
    let rows = repo.read_page(&run(&table, &query, "createdAt")).unwrap();
    let page = paging.connection(rows);
    assert_eq!(addresses(&page.edges), vec!["0xC3", "0xC2"]);
    assert!(page.has_previous_page);
    assert!(page.has_next_page);
}

#[test]
fn page_query_names_index_condition_limit_and_direction() {
    let repo = ContractRepository::new();
    let wallet = WalletAddress::from("0xW1".to_string());
    let q = repo.get_by_wallet_address_with_pager(&wallet, Some(Cursor::from("c".into())), 3, true);
    assert_eq!(q.table_name, "cng-contract");
    assert_eq!(q.index_name.as_deref(), Some("walletAddress-createdAt-index"));
    assert_eq!(q.limit, Some(3));
    assert_eq!(q.scan_index_forward, Some(true));
    assert_eq!(q.key_conditions.len(), 2);
    assert_eq!(q.key_conditions[0].name, "walletAddress");
    assert_eq!(q.key_conditions[0].condition.comparison_operator, ComparisonOperator::Eq);
    assert_eq!(text(&q.key_conditions[0].condition.attribute_value), "0xW1");
    assert_eq!(q.key_conditions[1].name, "createdAt");
    assert_eq!(q.key_conditions[1].condition.comparison_operator, ComparisonOperator::Gt);
    assert_eq!(text(&q.key_conditions[1].condition.attribute_value), "c");
    let back = repo.get_by_wallet_address_with_pager(&wallet, Some(Cursor::from("c".into())), 3, false);
    assert_eq!(back.key_conditions[1].condition.comparison_operator, ComparisonOperator::Lt);
    let start = repo.get_by_wallet_address_with_pager(&wallet, None, 3, true);
    assert_eq!(start.key_conditions.len(), 1);
}

#[test]
fn latest_contract_is_the_newest_of_wallet_and_schema() {
    let repo = ContractRepository::new();
    let table = five_contracts();
    let wallet = WalletAddress::from("0xW1".to_string());
    let q = repo.get_latest_by_wallet_address_and_schema(&wallet, &Schema::ERC721);
    assert_eq!(q.index_name.as_deref(), Some("walletAddress_schema-createdAt-index"));
    assert_eq!(q.limit, Some(1));
    assert_eq!(q.scan_index_forward, Some(false));
    assert_eq!(q.key_conditions[0].name, "walletAddress_schema");
    assert_eq!(text(&q.key_conditions[0].condition.attribute_value), "0xW1_ERC721");
    let latest = repo.read_latest(&run(&table, &q, "createdAt")).unwrap();
    assert_eq!(latest.address.as_str(), "0xC5");
}

#[test]
fn latest_contract_of_an_unknown_wallet_is_not_found() {
    let repo = ContractRepository::new();
    let table = five_contracts();
    let q = repo.get_latest_by_wallet_address_and_schema(&WalletAddress::from("0xW9".to_string()), &Schema::ERC721);
    assert_eq!(repo.read_latest(&run(&table, &q, "createdAt")).unwrap_err().kind, Kind::NotFound);
    let other = repo.get_latest_by_wallet_address_and_schema(&WalletAddress::from("0xW1".to_string()), &Schema::ERC1155);
    assert_eq!(repo.read_latest(&run(&table, &other, "createdAt")).unwrap_err().kind, Kind::NotFound);
}

#[test]
fn latest_contract_of_a_schema_is_the_newest_of_all_wallets() {
    let repo = ContractRepository::new();
    let table = five_contracts();
    let q = repo.get_latest_by_schema(&Schema::ERC721);
    assert_eq!(q.index_name.as_deref(), Some("schema-createdAt-index"));
    assert_eq!(q.limit, Some(1));
    assert_eq!(q.scan_index_forward, Some(false));
    assert_eq!(q.key_conditions.len(), 1);
    assert_eq!(q.key_conditions[0].name, "schema");
    assert_eq!(text(&q.key_conditions[0].condition.attribute_value), "ERC721");
    let latest = repo.read_latest(&run(&table, &q, "createdAt")).unwrap();
    assert_eq!(latest.address.as_str(), "0xC9");
    let none = repo.get_latest_by_schema(&Schema::ERC1155);
    assert_eq!(repo.read_latest(&run(&table, &none, "createdAt")).unwrap_err().kind, Kind::NotFound);
}

#[test]
fn get_all_lists_every_contract() {
    let repo = ContractRepository::new();
    let table = five_contracts();
    let q = repo.get_all();
    assert_eq!(q.index_name.as_deref(), Some("glk-createdAt-index"));
    assert_eq!(q.key_conditions[0].name, "glk");
    assert_eq!(text(&q.key_conditions[0].condition.attribute_value), "contract");
    assert_eq!(q.limit, None);
    let all = repo.read_all(&run(&table, &q, "createdAt")).unwrap();
    assert_eq!(all.len(), 6);
    assert_eq!(all[0].address.as_str(), "0xC1");
}

#[test]
fn one_bad_row_fails_the_whole_read() {
    let repo = ContractRepository::new();
    let mut rows = five_contracts();
    let mut broken = Record::new();
    broken.insert("pk".into(), AttributeValue::S("contract#0xBAD".into()));
    rows.insert(2, broken);
    let e = repo.read_all(&rows).unwrap_err();
    assert_eq!(e.kind, Kind::Internal);
    assert_eq!(e.msg, Some("walletAddress: missing field".to_string()));
    assert_eq!(repo.read_page(&rows).unwrap_err().kind, Kind::Internal);
}

#[test]
fn point_lookup_uses_the_composite_key() {
    let repo = ContractRepository::new();
    let GetItemRequest { table_name, key } = repo.get(&ContractId::new("0xC1".to_string()));
    assert_eq!(table_name, "cng-contract");
    assert_eq!(attr(&key, "pk").unwrap(), "contract#0xC1");
    assert_eq!(attr(&key, "sk").unwrap(), "#");
    assert_eq!(repo.read_one(None).unwrap_err().kind, Kind::NotFound);
    let found = repo.read_one(Some(repo.put(contract(1, "0xW1")).item)).unwrap();
    assert_eq!(found.address.as_str(), "0xC1");
    let tokens = TokenRepository::new();
    let got = tokens.get(&ContractId::new("0xC1".to_string()), &TokenId::new("7".to_string()));
    assert_eq!(attr(&got.key, "pk").unwrap(), "contract#0xC1");
    assert_eq!(attr(&got.key, "sk").unwrap(), "token#7");
    assert_eq!(tokens.read_one(None).unwrap_err().kind, Kind::NotFound);
}

#[test]
fn batch_get_of_nothing_makes_no_request() {
    let repo = ContractRepository::new();
    assert!(repo.batch_get(&Vec::new()).is_none());
}

#[test]
fn batch_get_asks_for_each_address_once() {
    let repo = ContractRepository::new();
    let ids = vec![
        ContractId::new("0xC1".to_string()),
        ContractId::new("0xC2".to_string()),
        ContractId::new("0xC1".to_string()),
    ];
    let request = repo.batch_get(&ids).unwrap();
    assert_eq!(request.table_name, "cng-contract");
    let keys: Vec<String> = request.keys.iter().map(|k| attr(k, "pk").unwrap()).collect();
    assert_eq!(keys, vec!["contract#0xC1", "contract#0xC2"]);
}

#[test]
fn batch_answer_omits_what_was_not_found() {
    let repo = ContractRepository::new();
    let responses = vec![
        TableItems { table_name: "other".into(), items: vec![Record::new()] },
        TableItems { table_name: "cng-contract".into(), items: vec![repo.put(contract(2, "0xW1")).item] },
    ];
    let found = repo.read_batch(&responses).unwrap();
    assert_eq!(found.len(), 1);
    assert_eq!(found[0].address.as_str(), "0xC2");
    assert!(repo.read_batch(&Vec::new()).unwrap().is_empty());
}

fn token_table() -> Vec<Record> {
    let repo = TokenRepository::new();
    let mut table = vec![
        repo.put(token(1, "0xW1", None)).item,
        repo.put(token(2, "0xW1", Some("1.4"))).item,
        repo.put(token(3, "0xW2", None)).item,
        repo.put(token(4, "0xW1", None)).item,
    ];
    table.push(contract_row(contract(1, "0xW1")));
    table
}

#[test]
fn tokens_of_a_contract_are_the_rows_with_a_token_sort_key() {
    let repo = TokenRepository::new();
    let q = repo.get_all_by_contract(&ContractId::new("0xC1".to_string()));
    assert!(q.index_name.is_none());
    assert_eq!(q.key_conditions.len(), 2);
    assert_eq!(q.key_conditions[1].name, "sk");
    assert_eq!(q.key_conditions[1].condition.comparison_operator, ComparisonOperator::BeginsWith);
    assert_eq!(text(&q.key_conditions[1].condition.attribute_value), "token#");
    let table = token_table();
    let tokens = repo.read_all(&run(&table, &q, "sk")).unwrap();
    assert_eq!(tokens.len(), 4);
}

#[test]
fn stock_and_sell_orders_are_told_apart_by_the_price() {
    let repo = TokenRepository::new();
    let address = ContractId::new("0xC1".to_string());
    let wallet = WalletAddress::from("0xW1".to_string());
    let table: Vec<Record> = token_table().into_iter().filter(|r| attr(r, "glk").unwrap() == "token").collect();

    let stock_query = repo.get_stock_by_contract_with_pager(&address, &wallet, None, 21, true);
    assert_eq!(stock_query.index_name.as_deref(), Some("pk-createdAt-index"));
    assert_eq!(
        stock_query.filter_expression.as_deref(),
        Some("glk = :glk AND ownerAddress = :ownerAddress AND attribute_not_exists(priceEth)")
    );
    assert_eq!(stock_query.expression_attribute_values.len(), 2);
    assert_eq!(stock_query.expression_attribute_values[0].name, ":glk");
    assert_eq!(text(&stock_query.expression_attribute_values[0].value), "token");
    assert_eq!(stock_query.expression_attribute_values[1].name, ":ownerAddress");
    assert_eq!(text(&stock_query.expression_attribute_values[1].value), "0xW1");
    let stock = repo.read_held_page(&run(&table, &stock_query, "createdAt"), &wallet, false).unwrap();
    let ids: Vec<String> = stock.iter().map(|r| r.entity.token_id.to_string()).collect();
    assert_eq!(ids, vec!["1", "4"]);
    assert_eq!(stock[1].cursor.0, "2023-05-04T00:00:00+09:00");

    let sell_query = repo.get_sell_order_by_contract_with_pager(&address, &wallet, None, 21, true);
    assert_eq!(
        sell_query.filter_expression.as_deref(),
        Some("glk = :glk AND ownerAddress = :ownerAddress AND attribute_exists(priceEth)")
    );
    let orders = repo.read_held_page(&run(&table, &sell_query, "createdAt"), &wallet, true).unwrap();
    let ids: Vec<String> = orders.iter().map(|r| r.entity.token_id.to_string()).collect();
    assert_eq!(ids, vec!["2"]);

    let all_query = repo.get_by_contract_with_pager(&address, None, 21, true);
    assert_eq!(all_query.filter_expression.as_deref(), Some("glk = :glk"));
    let all = repo.read_page(&run(&table, &all_query, "createdAt")).unwrap();
    assert_eq!(all.len(), 4);
    assert_eq!(keep_held(&all, &WalletAddress::from("0xW2".to_string()), false).len(), 1);
    assert_eq!(keep_held(&all, &WalletAddress::from("0xW2".to_string()), true).len(), 0);
}

#[test]
fn token_is_found_by_its_image_hash() {
    let repo = TokenRepository::new();
    let table = token_table();
    let q = repo.get_by_ipfs_image_hash(&ContractId::new("0xC1".to_string()), "Qm2".to_string());
    assert_eq!(q.index_name.as_deref(), Some("pk-ipfsImageHash-index"));
    assert_eq!(q.limit, Some(1));
    assert_eq!(q.key_conditions[1].name, "ipfsImageHash");
    let found = repo.read_by_ipfs_image_hash(&run(&table, &q, "createdAt")).unwrap();
    assert_eq!(found.token_id.as_str(), "2");
    let none = repo.get_by_ipfs_image_hash(&ContractId::new("0xC1".to_string()), "Qm9".to_string());
    assert_eq!(repo.read_by_ipfs_image_hash(&run(&table, &none, "createdAt")).unwrap_err().kind, Kind::NotFound);
}

#[test]
fn conditions_compare_as_they_are_named() {
    let eq = condition_eq(AttributeValue::S("x".into()));
    assert_eq!(eq.comparison_operator, ComparisonOperator::Eq);
    assert_eq!(text(&eq.attribute_value), "x");
    let has = condition_contains("y".to_string());
    assert_eq!(has.comparison_operator, ComparisonOperator::Contains);
    assert_eq!(text(&has.attribute_value), "y");
    let kind = condition_sk_type::<ContractId>();
    assert_eq!(kind.comparison_operator, ComparisonOperator::BeginsWith);
    assert_eq!(text(&kind.attribute_value), "contract#");
    assert_eq!(condition_start_from(Cursor::from("c".into()), true).comparison_operator, ComparisonOperator::Gt);
    assert_eq!(condition_start_from(Cursor::from("c".into()), false).comparison_operator, ComparisonOperator::Lt);
}

#[test]
fn a_row_is_read_with_its_sort_key_as_cursor() {
    let rec = ContractRepository::new().put(contract(3, "0xW1")).item;
    let row = EntityWithCursor::<Contract>::new(rec, Field::CreatedAt).unwrap();
    assert_eq!(row.cursor.0, "2023-04-03T00:00:00+09:00");
    assert_eq!(row.entity.address.as_str(), "0xC3");
    assert_eq!(EntityWithCursor::<Contract>::new(Record::new(), Field::CreatedAt).unwrap_err().kind, Kind::Internal);
}

/// Answers a point lookup as the table would: the row whose key attributes
/// equal those of the key.
fn lookup(table: &[Record], request: &GetItemRequest) -> Option<Record> {
    table
        .iter()
        .find(|row| request.key.entries().iter().all(|k| attr(row, &k.name) == Some(text(&k.value))))
        .cloned()
}

#[test]
fn what_was_put_is_found_under_the_key_of_its_entity() {
    let contracts = ContractRepository::new();
    let tokens = TokenRepository::new();
    let table = token_table();
    let found = contracts.read_one(lookup(&table, &contracts.get(&ContractId::new("0xC1".to_string())))).unwrap();
    assert_eq!(found.address.as_str(), "0xC1");
    assert_eq!(found.wallet_address.0, "0xW1");
    let key = tokens.get(&ContractId::new("0xC1".to_string()), &TokenId::new("2".to_string()));
    let found = tokens.read_one(lookup(&table, &key)).unwrap();
    assert_eq!(found.token_id.as_str(), "2");
    assert_eq!(found.price_eth.unwrap().to_string(), "1.4");
    let missing = tokens.get(&ContractId::new("0xC1".to_string()), &TokenId::new("9".to_string()));
    assert_eq!(tokens.read_one(lookup(&table, &missing)).unwrap_err().kind, Kind::NotFound);
    let other = contracts.get(&ContractId::new("0xC7".to_string()));
    assert_eq!(contracts.read_one(lookup(&table, &other)).unwrap_err().kind, Kind::NotFound);
}
