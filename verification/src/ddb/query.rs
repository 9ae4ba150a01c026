//! Requests to the table as plain values, and the reading of what the table
//! answers.

use vstd::prelude::*;
use crate::ddb::codec::{DecodeError, Field, read_string, string_at};
use crate::ddb::key::{PrimaryKey, key_prefix};
use crate::ddb::record::{Attribute, AttributeValue, Record, Scalar};
use crate::errors::{AppError, Kind};
use crate::pagination::Cursor;
use crate::text::join;

verus! {

/// How a condition compares an attribute with its value.
#[derive(Debug, Clone, Copy, PartialEq, Eq, Structural)]
pub enum ComparisonOperator {
    Eq,
    BeginsWith,
    Contains,
    Gt,
    Lt,
}

/// A condition on one attribute.
#[derive(Debug)]
pub struct Condition {
    pub comparison_operator: ComparisonOperator,
    pub attribute_value: AttributeValue,
}

impl Condition {
    /// Whether the condition compares by `operator` with `value`.
    pub open spec fn is(self, operator: ComparisonOperator, value: Scalar) -> bool {
        self.comparison_operator == operator && self.attribute_value@ == value
    }
}

/// The condition that a sort key names an entity of the kind of `T`.
pub fn condition_sk_type<T: PrimaryKey>() -> (condition: Condition)
    ensures
        condition.is(ComparisonOperator::BeginsWith, Scalar::S(key_prefix(T::kind()))),
{
    let name = T::typename();
    Condition {
        comparison_operator: ComparisonOperator::BeginsWith,
        attribute_value: AttributeValue::S(join(name.as_str(), "#")),
    }
}

/// The condition that an attribute equals `v`.
pub fn condition_eq(v: AttributeValue) -> (condition: Condition)
    ensures
        condition.is(ComparisonOperator::Eq, v@),
{
    Condition { comparison_operator: ComparisonOperator::Eq, attribute_value: v }
}

/// The condition that an attribute contains the text `v`.
pub fn condition_contains(v: String) -> (condition: Condition)
    ensures
        condition.is(ComparisonOperator::Contains, Scalar::S(v@)),
{
    Condition { comparison_operator: ComparisonOperator::Contains, attribute_value: AttributeValue::S(v) }
}

/// The condition that resumes a scan at a cursor: a forward scan reads what
/// sorts after the cursor, a backward scan what sorts before it.
pub fn condition_start_from(cursor: Cursor, forward: bool) -> (condition: Condition)
    ensures
        condition.is(
            if forward {
                ComparisonOperator::Gt
            } else {
                ComparisonOperator::Lt
            },
            Scalar::S(cursor@),
        ),
{
    Condition {
        comparison_operator: if forward {
            ComparisonOperator::Gt
        } else {
            ComparisonOperator::Lt
        },
        attribute_value: AttributeValue::S(cursor.into()),
    }
}

/// A condition on a named key attribute.
#[derive(Debug)]
pub struct KeyCondition {
    pub name: String,
    pub condition: Condition,
}

impl KeyCondition {
    /// Whether this is the condition on `name` that compares by `operator`
    /// with `value`.
    pub open spec fn is(self, name: Seq<char>, operator: ComparisonOperator, value: Scalar) -> bool {
        self.name@ == name && self.condition.is(operator, value)
    }
}

/// A range query: an index, conditions on its key attributes, a filter on
/// the rows found, a limit and a direction.
#[derive(Debug)]
pub struct QueryRequest {
    pub table_name: String,
    pub index_name: Option<String>,
    pub key_conditions: Vec<KeyCondition>,
    pub filter_expression: Option<String>,
    pub expression_attribute_values: Vec<Attribute>,
    pub limit: Option<i32>,
    pub scan_index_forward: Option<bool>,
}

impl QueryRequest {
    /// Whether the query reads `table` through `index`.
    pub open spec fn reads(self, table: Seq<char>, index: Option<Seq<char>>) -> bool {
        &&& self.table_name@ == table
        &&& match index {
            Some(name) => self.index_name.is_some() && self.index_name.unwrap()@ == name,
            None => self.index_name.is_none(),
        }
    }

    /// Whether the query filters the rows found by `expression`.
    pub open spec fn filters_by(self, expression: Seq<char>) -> bool {
        self.filter_expression.is_some() && self.filter_expression.unwrap()@ == expression
    }

    /// Whether the query is a page of a scan: it has the given limit and
    /// direction, and resumes at the cursor when there is one, by a condition
    /// on the sort attribute that stands after the first `fixed` conditions.
    pub open spec fn pages(
        self,
        fixed: int,
        sort_attribute: Seq<char>,
        cursor: Option<Cursor>,
        limit: i32,
        forward: bool,
    ) -> bool {
        &&& self.limit == Some(limit)
        &&& self.scan_index_forward == Some(forward)
        &&& match cursor {
            Some(c) => self.key_conditions@.len() == fixed + 1 && self.key_conditions@[fixed].is(
                sort_attribute,
                if forward {
                    ComparisonOperator::Gt
                } else {
                    ComparisonOperator::Lt
                },
                Scalar::S(c@),
            ),
            None => self.key_conditions@.len() == fixed,
        }
    }
}

/// A point lookup by key.
#[derive(Debug)]
pub struct GetItemRequest {
    pub table_name: String,
    pub key: Record,
}

/// An unconditional write of a row: whoever writes last wins.
#[derive(Debug)]
pub struct PutItemRequest {
    pub table_name: String,
    pub item: Record,
}

/// A lookup of several keys at once.
#[derive(Debug)]
pub struct BatchGetRequest {
    pub table_name: String,
    pub keys: Vec<Record>,
}

/// The rows that a batch lookup found in one table.
#[derive(Debug)]
pub struct TableItems {
    pub table_name: String,
    pub items: Vec<Record>,
}

/// An entity together with the value of the sort attribute of the row from
/// which it was read.
#[derive(Debug)]
pub struct EntityWithCursor<E> {
    pub entity: E,
    pub cursor: Cursor,
}

/// An entity that is read from a record.
pub trait Entity: Sized {
    /// Why `rec` does not hold an entity, or `None` when it holds one.
    spec fn failure(rec: Map<Seq<char>, Scalar>) -> Option<DecodeError>;

    /// Whether the entity is the one that `rec` holds.
    spec fn reads_as(&self, rec: Map<Seq<char>, Scalar>) -> bool;

    /// Reads the entity that `rec` holds.
    fn from_record(rec: Record) -> (res: Result<Self, DecodeError>)
        ensures
            match Self::failure(rec@) {
                None => res.is_ok() && res.unwrap().reads_as(rec@),
                Some(e) => (res matches Err(err) && err == e),
            },
    ;
}

/// The failure of the first of `items` that holds no entity, or `None` when
/// every one of them holds an entity.
pub open spec fn first_failure<E: Entity>(items: Seq<Record>) -> Option<DecodeError>
    decreases items.len(),
{
    if items.len() == 0 {
        None
    } else {
        match first_failure::<E>(items.drop_last()) {
            Some(e) => Some(e),
            None => E::failure(items.last()@),
        }
    }
}

/// Whether `err` is the `Internal` failure that stands for the decode failure
/// `e`.
pub open spec fn reports(err: AppError, e: DecodeError) -> bool {
    err.kind == Kind::Internal && err.msg_view() == Some(e.message())
}

/// Reads every row as an entity, in the order of the rows. The first row that
/// holds no entity fails the whole read.
pub fn read_all<E: Entity>(items: &Vec<Record>) -> (res: Result<Vec<E>, AppError>)
    ensures
        match first_failure::<E>(items@) {
            Some(e) => (res matches Err(err) && reports(err, e)),
            None => res.is_ok() && res.unwrap()@.len() == items@.len() && forall|i: int|
                0 <= i < items@.len() ==> (#[trigger] res.unwrap()@[i]).reads_as(items@[i]@),
        },
{
    let mut entities: Vec<E> = Vec::new();
    let mut i: usize = 0;
    while i < items.len()
        invariant
            0 <= i <= items.len(),
            first_failure::<E>(items@.take(i as int)).is_none(),
            entities@.len() == i,
            forall|k: int| 0 <= k < i ==> (#[trigger] entities@[k]).reads_as(items@[k]@),
        decreases items.len() - i,
    {
        assert(items@.take(i + 1).drop_last() =~= items@.take(i as int));
        match E::from_record(items[i].clone()) {
            Ok(entity) => {
                entities.push(entity);
            },
            Err(e) => {
                proof {
                    lemma_first_failure_stays::<E>(items@, i + 1);
                }
                return Err(e.into_app_error());
            },
        }
        i += 1;
    }
    assert(items@.take(i as int) =~= items@);
    Ok(entities)
}

/// A failure among the first `n` rows is the failure of all the rows.
pub proof fn lemma_first_failure_stays<E: Entity>(items: Seq<Record>, n: int)
    requires
        0 <= n <= items.len(),
        first_failure::<E>(items.take(n)).is_some(),
    ensures
        first_failure::<E>(items) == first_failure::<E>(items.take(n)),
    decreases items.len() - n,
{
    if n < items.len() {
        assert(items.take(n + 1).drop_last() =~= items.take(n));
        lemma_first_failure_stays::<E>(items, n + 1);
    } else {
        assert(items.take(n) =~= items);
    }
}

/// What stops a row from being read with its cursor: it holds no entity, or
/// it lacks the sort attribute as a string.
pub open spec fn row_failure<E: Entity>(rec: Map<Seq<char>, Scalar>, sort: Field) -> Option<
    DecodeError,
> {
    match E::failure(rec) {
        Some(e) => Some(e),
        None => match string_at(rec, sort) {
            Err(e) => Some(e),
            Ok(_) => None,
        },
    }
}

/// The failure of the first of `items` that cannot be read with its cursor.
pub open spec fn first_row_failure<E: Entity>(items: Seq<Record>, sort: Field) -> Option<
    DecodeError,
>
    decreases items.len(),
{
    if items.len() == 0 {
        None
    } else {
        match first_row_failure::<E>(items.drop_last(), sort) {
            Some(e) => Some(e),
            None => row_failure::<E>(items.last()@, sort),
        }
    }
}

/// A failure among the first `n` rows is the failure of all the rows.
pub proof fn lemma_first_row_failure_stays<E: Entity>(items: Seq<Record>, sort: Field, n: int)
    requires
        0 <= n <= items.len(),
        first_row_failure::<E>(items.take(n), sort).is_some(),
    ensures
        first_row_failure::<E>(items, sort) == first_row_failure::<E>(items.take(n), sort),
    decreases items.len() - n,
{
    if n < items.len() {
        assert(items.take(n + 1).drop_last() =~= items.take(n));
        lemma_first_row_failure_stays::<E>(items, sort, n + 1);
    } else {
        assert(items.take(n) =~= items);
    }
}

impl<E: Entity> EntityWithCursor<E> {
    /// Whether this is the entity that `rec` holds, with the value of the
    /// attribute `sort` of `rec` as its cursor.
    pub open spec fn reads_as(self, rec: Map<Seq<char>, Scalar>, sort: Field) -> bool {
        self.entity.reads_as(rec) && string_at(rec, sort) == Ok::<Seq<char>, DecodeError>(
            self.cursor@,
        )
    }

    /// Reads a row as an entity and takes its cursor from the attribute `sort`.
    pub fn new(v: Record, sort: Field) -> (res: Result<Self, AppError>)
        ensures
            match row_failure::<E>(v@, sort) {
                Some(e) => (res matches Err(err) && reports(err, e)),
                None => res.is_ok() && res.unwrap().reads_as(v@, sort),
            },
    {
        let cursor = read_string(&v, sort);
        match E::from_record(v) {
            Err(e) => Err(e.into_app_error()),
            Ok(entity) => match cursor {
                Err(e) => Err(e.into_app_error()),
                Ok(raw) => Ok(EntityWithCursor { entity, cursor: Cursor::from(raw) }),
            },
        }
    }
}

/// Reads every row as an entity with its cursor, in the order of the rows.
/// The first row that cannot be read fails the whole read.
pub fn read_page<E: Entity>(items: &Vec<Record>, sort: Field) -> (res: Result<
    Vec<EntityWithCursor<E>>,
    AppError,
>)
    ensures
        match first_row_failure::<E>(items@, sort) {
            Some(e) => (res matches Err(err) && reports(err, e)),
            None => res.is_ok() && res.unwrap()@.len() == items@.len() && forall|i: int|
                0 <= i < items@.len() ==> (#[trigger] res.unwrap()@[i]).reads_as(
                    items@[i]@,
                    sort,
                ),
        },
{
    let mut rows: Vec<EntityWithCursor<E>> = Vec::new();
    let mut i: usize = 0;
    while i < items.len()
        invariant
            0 <= i <= items.len(),
            first_row_failure::<E>(items@.take(i as int), sort).is_none(),
            rows@.len() == i,
            forall|k: int| 0 <= k < i ==> (#[trigger] rows@[k]).reads_as(items@[k]@, sort),
        decreases items.len() - i,
    {
        assert(items@.take(i + 1).drop_last() =~= items@.take(i as int));
        match EntityWithCursor::<E>::new(items[i].clone(), sort) {
            Ok(row) => {
                rows.push(row);
            },
            Err(e) => {
                proof {
                    lemma_first_row_failure_stays::<E>(items@, sort, i + 1);
                }
                return Err(e);
            },
        }
        i += 1;
    }
    assert(items@.take(i as int) =~= items@);
    Ok(rows)
}

/// Reads the answer to a query for the latest row: the first row, or
/// `NotFound` when the query found none.
pub fn read_first<E: Entity>(items: &Vec<Record>) -> (res: Result<E, AppError>)
    ensures
        items@.len() == 0 ==> (res matches Err(err) && err.kind == Kind::NotFound),
        items@.len() > 0 ==> match E::failure(items@[0]@) {
            Some(e) => (res matches Err(err) && reports(err, e)),
            None => res.is_ok() && res.unwrap().reads_as(items@[0]@),
        },
{
    if items.len() == 0 {
        return Err(AppError::new(Kind::NotFound, "no such record"));
    }
    match E::from_record(items[0].clone()) {
        Ok(entity) => Ok(entity),
        Err(e) => Err(e.into_app_error()),
    }
}

/// Reads the answer to a point lookup: the row, or `NotFound` when there is
/// none under the key.
pub fn read_one<E: Entity>(item: Option<Record>) -> (res: Result<E, AppError>)
    ensures
        match item {
            None => (res matches Err(err) && err.kind == Kind::NotFound),
            Some(rec) => match E::failure(rec@) {
                Some(e) => (res matches Err(err) && reports(err, e)),
                None => res.is_ok() && res.unwrap().reads_as(rec@),
            },
        },
{
    match item {
        None => Err(AppError::new(Kind::NotFound, "no such record")),
        Some(rec) => match E::from_record(rec) {
            Ok(entity) => Ok(entity),
            Err(e) => Err(e.into_app_error()),
        },
    }
}

} // verus!
