//! What the table answers to a range query: a model of the store, over which
//! the paging of the library is stated as a whole.
//!
//! An index is the sequence of its rows in the ascending order of its sort
//! attribute. The answer to a query is made of the rows that meet every key
//! condition, in the direction of the scan, cut at the limit. Filter
//! expressions are no part of the model.

use vstd::prelude::*;
use crate::ddb::codec::{DecodeError, Field};
use crate::ddb::contract::contract_of;
use crate::ddb::query::{ComparisonOperator, KeyCondition, QueryRequest};
use crate::pagination::Pagination;
use crate::ddb::record::Scalar;
use crate::domain::contract::ContractView;
use crate::pagination::Cursor;
use crate::text::has_prefix;

verus! {

/// Whether the text `a` sorts before the text `b`: at the first place where
/// they differ `a` has the lesser character, or `a` ends there and `b` does
/// not.
pub open spec fn text_lt(a: Seq<char>, b: Seq<char>) -> bool
    decreases a.len(),
{
    if b.len() == 0 {
        false
    } else if a.len() == 0 {
        true
    } else if a[0] != b[0] {
        a[0] < b[0]
    } else {
        text_lt(a.drop_first(), b.drop_first())
    }
}

/// No text sorts before itself.
pub proof fn lemma_text_lt_irreflexive(a: Seq<char>)
    ensures
        !text_lt(a, a),
    decreases a.len(),
{
    if a.len() > 0 {
        lemma_text_lt_irreflexive(a.drop_first());
    }
}

/// Of two texts at most one sorts before the other.
pub proof fn lemma_text_lt_asymmetric(a: Seq<char>, b: Seq<char>)
    requires
        text_lt(a, b),
    ensures
        !text_lt(b, a),
    decreases a.len(),
{
    if a.len() > 0 && b.len() > 0 && a[0] == b[0] {
        lemma_text_lt_asymmetric(a.drop_first(), b.drop_first());
    }
}

/// Whether a row meets a condition on the attribute `name`. Order and
/// prefixes are those of strings.
pub open spec fn meets(
    row: Map<Seq<char>, Scalar>,
    name: Seq<char>,
    operator: ComparisonOperator,
    value: Scalar,
) -> bool {
    &&& row.contains_key(name)
    &&& match operator {
        ComparisonOperator::Eq => row[name] == value,
        ComparisonOperator::Gt => row[name] is S && value is S && text_lt(
            value->S_0,
            row[name]->S_0,
        ),
        ComparisonOperator::Lt => row[name] is S && value is S && text_lt(
            row[name]->S_0,
            value->S_0,
        ),
        ComparisonOperator::BeginsWith => row[name] is S && value is S && has_prefix(
            row[name]->S_0,
            value->S_0,
        ),
        ComparisonOperator::Contains => row[name] is S && value is S && exists|at: int|
            0 <= at <= row[name]->S_0.len() - value->S_0.len() && #[trigger] row[name]->S_0.subrange(
                at,
                at + value->S_0.len(),
            ) == value->S_0,
    }
}

/// Whether a row meets every one of the key conditions.
pub open spec fn meets_all(row: Map<Seq<char>, Scalar>, conditions: Seq<KeyCondition>) -> bool {
    forall|i: int|
        0 <= i < conditions.len() ==> meets(
            row,
            (#[trigger] conditions[i]).name@,
            conditions[i].condition.comparison_operator,
            conditions[i].condition.attribute_value@,
        )
}

/// The rows of an index that meet every key condition, in the order of the
/// index.
pub open spec fn matching(index: Seq<Map<Seq<char>, Scalar>>, conditions: Seq<KeyCondition>) -> Seq<
    Map<Seq<char>, Scalar>,
>
    decreases index.len(),
{
    if index.len() == 0 {
        Seq::empty()
    } else if meets_all(index.last(), conditions) {
        matching(index.drop_last(), conditions).push(index.last())
    } else {
        matching(index.drop_last(), conditions)
    }
}

/// The rows in the direction of a scan: as the index has them, or backward
/// where the scan is backward.
pub open spec fn in_direction(rows: Seq<Map<Seq<char>, Scalar>>, forward: Option<bool>) -> Seq<
    Map<Seq<char>, Scalar>,
> {
    if forward == Some(false) {
        rows.reverse()
    } else {
        rows
    }
}

/// The rows cut at a limit.
pub open spec fn cut(rows: Seq<Map<Seq<char>, Scalar>>, limit: Option<i32>) -> Seq<
    Map<Seq<char>, Scalar>,
> {
    match limit {
        Some(l) => if 0 <= l < rows.len() {
            rows.take(l as int)
        } else {
            rows
        },
        None => rows,
    }
}

/// The answer of the store to a query over an index.
pub open spec fn answer(index: Seq<Map<Seq<char>, Scalar>>, query: QueryRequest) -> Seq<
    Map<Seq<char>, Scalar>,
> {
    cut(in_direction(matching(index, query.key_conditions@), query.scan_index_forward), query.limit)
}

/// Whether the index holds the contracts, row for row, all of the wallet
/// `wallet` and each created later than the one before it.
pub open spec fn holds_contracts_of(
    index: Seq<Map<Seq<char>, Scalar>>,
    contracts: Seq<ContractView>,
    wallet: Seq<char>,
) -> bool {
    &&& index.len() == contracts.len()
    &&& forall|i: int|
        0 <= i < index.len() ==> contract_of(#[trigger] index[i]) == Ok::<ContractView, DecodeError>(
            contracts[i],
        ) && contracts[i].wallet_address == wallet
    &&& forall|i: int, j: int|
        0 <= i < j < contracts.len() ==> text_lt(
            (#[trigger] contracts[i]).created_at,
            (#[trigger] contracts[j]).created_at,
        )
}

/// Whether `cursor` is the cursor of the contract at `after`, or no cursor
/// where `after` is -1.
pub open spec fn is_cursor_of(cursor: Option<Cursor>, contracts: Seq<ContractView>, after: int) -> bool {
    &&& -1 <= after < contracts.len()
    &&& match cursor {
        None => after == -1,
        Some(c) => after >= 0 && c@ == contracts[after].created_at,
    }
}

/// Whether `query` is the forward page of the contracts of `wallet` that
/// resumes after the contract at `after`, or starts at the beginning where
/// `after` is -1: the query that `get_by_wallet_address_with_pager` builds
/// for the cursor of that contract.
pub open spec fn pages_after(
    query: QueryRequest,
    contracts: Seq<ContractView>,
    wallet: Seq<char>,
    cursor: Option<Cursor>,
    after: int,
    limit: i32,
) -> bool {
    &&& is_cursor_of(cursor, contracts, after)
    &&& query.key_conditions@.len() >= 1
    &&& query.key_conditions@[0].is("walletAddress"@, ComparisonOperator::Eq, Scalar::S(wallet))
    &&& query.pages(1, "createdAt"@, cursor, limit, true)
}

/// A row of the index meets the conditions of the page exactly when its
/// contract was created after the one at which the page resumes.
proof fn lemma_row_meets_page(
    index: Seq<Map<Seq<char>, Scalar>>,
    contracts: Seq<ContractView>,
    wallet: Seq<char>,
    query: QueryRequest,
    cursor: Option<Cursor>,
    after: int,
    limit: i32,
    at: int,
)
    requires
        holds_contracts_of(index, contracts, wallet),
        pages_after(query, contracts, wallet, cursor, after, limit),
        0 <= at < index.len(),
    ensures
        meets_all(index[at], query.key_conditions@) == (at > after),
{
    let row = index[at];
    let conditions = query.key_conditions@;
    assert(contract_of(row) == Ok::<ContractView, DecodeError>(contracts[at]));
    assert(Field::WalletAddress.name() == "walletAddress"@);
    assert(Field::CreatedAt.name() == "createdAt"@);
    assert(row.contains_key("walletAddress"@) && row["walletAddress"@] == Scalar::S(wallet));
    assert(row.contains_key("createdAt"@) && row["createdAt"@] == Scalar::S(
        contracts[at].created_at,
    ));
    assert(meets(
        row,
        conditions[0].name@,
        conditions[0].condition.comparison_operator,
        conditions[0].condition.attribute_value@,
    ));
    if after >= 0 {
        if at == after {
            lemma_text_lt_irreflexive(contracts[at].created_at);
        }
        if at < after {
            lemma_text_lt_asymmetric(contracts[at].created_at, contracts[after].created_at);
        }
        assert(meets(
            row,
            conditions[1].name@,
            conditions[1].condition.comparison_operator,
            conditions[1].condition.attribute_value@,
        ) == (at > after));
        if at > after {
            assert forall|i: int| 0 <= i < conditions.len() implies meets(
                row,
                (#[trigger] conditions[i]).name@,
                conditions[i].condition.comparison_operator,
                conditions[i].condition.attribute_value@,
            ) by {
                assert(i == 0 || i == 1);
            }
        }
    } else {
        assert forall|i: int| 0 <= i < conditions.len() implies meets(
            row,
            (#[trigger] conditions[i]).name@,
            conditions[i].condition.comparison_operator,
            conditions[i].condition.attribute_value@,
        ) by {
            assert(i == 0);
        }
    }
}

/// Of the first `upto` rows of the index, those that meet the conditions of
/// the page are the rows behind the one at which the page resumes.
proof fn lemma_matching_is_the_rest(
    index: Seq<Map<Seq<char>, Scalar>>,
    contracts: Seq<ContractView>,
    wallet: Seq<char>,
    query: QueryRequest,
    cursor: Option<Cursor>,
    after: int,
    limit: i32,
    upto: int,
)
    requires
        holds_contracts_of(index, contracts, wallet),
        pages_after(query, contracts, wallet, cursor, after, limit),
        0 <= upto <= index.len(),
    ensures
        matching(index.take(upto), query.key_conditions@) == if upto <= after + 1 {
            Seq::<Map<Seq<char>, Scalar>>::empty()
        } else {
            index.subrange(after + 1, upto)
        },
    decreases upto,
{
    if upto > 0 {
        lemma_matching_is_the_rest(index, contracts, wallet, query, cursor, after, limit, upto - 1);
        lemma_row_meets_page(index, contracts, wallet, query, cursor, after, limit, upto - 1);
        assert(index.take(upto).drop_last() =~= index.take(upto - 1));
        assert(index.take(upto).last() == index[upto - 1]);
        if upto > after + 1 {
            if upto - 1 <= after + 1 {
                assert(index.subrange(after + 1, upto) =~= Seq::<Map<Seq<char>, Scalar>>::empty().push(
                    index[upto - 1],
                ));
            } else {
                assert(index.subrange(after + 1, upto) =~= index.subrange(after + 1, upto - 1).push(
                    index[upto - 1],
                ));
            }
        }
    }
}

/// Paging forward through the contracts of a wallet: the store answers the
/// page that resumes after a contract with the contracts created after it,
/// oldest first, as many as the limit allows, and the first page with the
/// oldest contracts of all.
///
/// With a limit of one more than the page size, the answer holds the
/// sentinel row exactly when more contracts follow than the page shows.
pub proof fn lemma_contract_page_forward(
    index: Seq<Map<Seq<char>, Scalar>>,
    contracts: Seq<ContractView>,
    wallet: Seq<char>,
    query: QueryRequest,
    cursor: Option<Cursor>,
    after: int,
    limit: i32,
)
    requires
        holds_contracts_of(index, contracts, wallet),
        pages_after(query, contracts, wallet, cursor, after, limit),
        limit >= 0,
    ensures
        answer(index, query) == index.subrange(
            after + 1,
            if index.len() - (after + 1) > limit {
                after + 1 + limit
            } else {
                index.len() as int
            },
        ),
        forall|i: int|
            0 <= i < answer(index, query).len() ==> contract_of(#[trigger] answer(index, query)[i])
                == Ok::<ContractView, DecodeError>(contracts[after + 1 + i]),
{
    lemma_matching_is_the_rest(
        index,
        contracts,
        wallet,
        query,
        cursor,
        after,
        limit,
        index.len() as int,
    );
    assert(index.take(index.len() as int) =~= index);
    let rest = index.subrange(after + 1, index.len() as int);
    assert(matching(index, query.key_conditions@) =~= rest);
    if rest.len() > limit {
        assert(rest.take(limit as int) =~= index.subrange(after + 1, after + 1 + limit));
    }
}

/// What the caller is shown of such a page: with a limit of one more than
/// the page size, the page holds as many contracts as its size, or all that
/// are left where those are fewer, and a further page is announced exactly
/// when more are left than the page shows.
pub proof fn lemma_contract_page_shown(
    index: Seq<Map<Seq<char>, Scalar>>,
    contracts: Seq<ContractView>,
    wallet: Seq<char>,
    query: QueryRequest,
    paging: Pagination,
    after: int,
)
    requires
        holds_contracts_of(index, contracts, wallet),
        pages_after(query, contracts, wallet, paging.cursor, after, paging.limit),
        paging.forward,
        paging.limit > 0,
    ensures
        paging.reached_limit(answer(index, query).len() as int) == (index.len() - (after + 1)
            > paging.limit - 1),
        paging.kept(answer(index, query).len() as int) == if index.len() - (after + 1) > paging.limit
            - 1 {
            paging.limit - 1
        } else {
            index.len() - (after + 1)
        },
        forall|i: int|
            0 <= i < paging.kept(answer(index, query).len() as int) ==> contract_of(
                #[trigger] answer(index, query)[i],
            ) == Ok::<ContractView, DecodeError>(contracts[after + 1 + i]),
{
    lemma_contract_page_forward(index, contracts, wallet, query, paging.cursor, after, paging.limit);
}

} // verus!
