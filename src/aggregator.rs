use vstd::prelude::*;

use crate::aggregate::{
    aggregate_expr, aggregate_expr_spec, result_alias, result_alias_spec, subquery_alias,
    AggregateFunction,
};
use crate::decode::{first_cell, Cell, DbErr, Decimal, DecodeError, Decodable, Row};
use crate::aggregate::subquery_alias_spec;
use crate::query::{
    add_expr_as, add_from_subquery, custom_expr, custom_of, new_select,
    only_projections_and_subqueries, projections_of, subqueries_of,
};

verus! {

/// An aggregate query over a selection, ready to be executed: it projects one
/// aggregate function applied to one column of the selection, embedded as a
/// subquery, under a fixed result alias.
pub struct Aggregator {
    query: sea_query::SelectStatement,
    function: AggregateFunction,
    column: String,
}

impl Aggregator {
    /// The aggregate function this aggregator applies.
    pub closed spec fn function_spec(&self) -> AggregateFunction {
        self.function
    }

    /// The column of the selection that is aggregated.
    pub closed spec fn column_spec(&self) -> Seq<char> {
        self.column@
    }

    /// The statement this aggregator submits.
    pub closed spec fn query_spec(&self) -> sea_query::SelectStatement {
        self.query
    }

    /// Wraps `inner` as the subquery `sub_query` under a statement that
    /// projects `<f>("sub_query"."<column>") AS "s"`. `inner` itself is copied,
    /// not changed.
    pub fn wrap(inner: &sea_query::SelectStatement, f: AggregateFunction, column: &str) -> (r:
        Aggregator)
        ensures
            r.function_spec() == f,
            r.column_spec() == column@,
            wraps(r.query_spec(), *inner, f, column@),
    {
        let mut query = new_select();
        add_expr_as(&mut query, custom_expr(aggregate_expr(f, column)), result_alias());
        add_from_subquery(&mut query, inner.clone(), subquery_alias());
        Aggregator { query, function: f, column: String::from_str(column) }
    }

    /// The aggregate function this aggregator applies.
    pub fn function(&self) -> (r: AggregateFunction)
        ensures
            r == self.function_spec(),
    {
        self.function
    }

    /// The column of the selection that is aggregated.
    pub fn column(&self) -> (r: &str)
        ensures
            r@ == self.column_spec(),
    {
        self.column.as_str()
    }

    /// The aggregate expression that the statement projects.
    pub fn expression(&self) -> (r: String)
        ensures
            r@ == aggregate_expr_spec(self.function_spec(), self.column_spec()),
    {
        aggregate_expr(self.function, self.column.as_str())
    }

    /// The statement to submit.
    pub fn query(&self) -> (r: &sea_query::SelectStatement)
        ensures
            *r == self.query_spec(),
    {
        &self.query
    }

    /// Finishes an execution, given what the connection returned for the
    /// statement: its error, verbatim; the zero of `N` when no row came back;
    /// else the decoded cell of the result alias.
    pub fn one<N: Decodable>(&self, fetched: Result<Option<Row>, DbErr>) -> (r: Result<N, DbErr>)
        ensures
            r == outcome::<N>(fetched),
    {
        match fetched {
            Err(e) => Err(e),
            Ok(None) => Ok(N::zero()),
            Ok(Some(row)) => match row.get(result_alias()) {
                None => Err(DbErr::Decode(DecodeError::Missing)),
                Some(Cell::Null) => Err(DbErr::Decode(DecodeError::Null)),
                Some(cell) => match N::decode(cell) {
                    Ok(v) => Ok(v),
                    Err(e) => Err(DbErr::Decode(e)),
                },
            },
        }
    }
}

/// `q` is `SELECT <f>("sub_query"."<column>") AS "s" FROM (<inner>) AS
/// "sub_query"`: exactly one projection, the aggregate expression under the
/// result alias, exactly one source, `inner` itself under the subquery alias,
/// and no other clause.
pub open spec fn wraps(
    q: sea_query::SelectStatement,
    inner: sea_query::SelectStatement,
    f: AggregateFunction,
    column: Seq<char>,
) -> bool {
    &&& projections_of(q) == seq![(custom_of(aggregate_expr_spec(f, column)), result_alias_spec())]
    &&& subqueries_of(q) == seq![(inner, subquery_alias_spec())]
    &&& only_projections_and_subqueries(q)
}

/// What decoding the result cell of a returned row gives: NULL is a decode
/// error whatever the target type.
pub open spec fn decoded<N: Decodable>(row: Row) -> Result<N, DbErr> {
    match first_cell(row@, result_alias_spec()) {
        None => Err(DbErr::Decode(DecodeError::Missing)),
        Some(Cell::Null) => Err(DbErr::Decode(DecodeError::Null)),
        Some(cell) => match N::decode_spec(cell) {
            Ok(v) => Ok(v),
            Err(e) => Err(DbErr::Decode(e)),
        },
    }
}

/// The result of an execution whose submission returned `fetched`.
pub open spec fn outcome<N: Decodable>(fetched: Result<Option<Row>, DbErr>) -> Result<N, DbErr> {
    match fetched {
        Err(e) => Err(e),
        Ok(None) => Ok(N::zero_spec()),
        Ok(Some(row)) => decoded::<N>(row),
    }
}

/// No row back gives the zero of the target type, whatever the aggregate
/// function: a count of 0. (Over an empty set SQL's SUM, MIN, MAX and AVG
/// return a row holding NULL instead, which is a decode error.)
pub proof fn lemma_empty_source_yields_zero<N: Decodable>()
    ensures
        outcome::<N>(Ok(None)) == Ok::<N, DbErr>(N::zero_spec()),
        outcome::<u64>(Ok(None)) == Ok::<u64, DbErr>(0),
        outcome::<i64>(Ok(None)) == Ok::<i64, DbErr>(0),
{
}

/// A NULL result (SUM, MIN, MAX or AVG over an empty set in SQL) is a decode
/// error, for every target type.
pub proof fn lemma_null_result_is_decode_error<N: Decodable>(row: Row)
    requires
        first_cell(row@, result_alias_spec()) == Some(Cell::Null),
    ensures
        outcome::<N>(Ok(Some(row))) == Err::<N, DbErr>(DbErr::Decode(DecodeError::Null)),
{
}

/// The same non-negative integer result decodes to the same value as `i64`,
/// `u64`, `i32` (when it fits) and `Decimal`, and fails to decode as `bool`.
pub proof fn lemma_type_directed_decoding(row: Row, v: i64)
    requires
        0 <= v,
        first_cell(row@, result_alias_spec()) == Some(Cell::Int(v)),
    ensures
        outcome::<i64>(Ok(Some(row))) == Ok::<i64, DbErr>(v),
        outcome::<u64>(Ok(Some(row))) == Ok::<u64, DbErr>(v as u64),
        v <= i32::MAX ==> outcome::<i32>(Ok(Some(row))) == Ok::<i32, DbErr>(v as i32),
        outcome::<Decimal>(Ok(Some(row))) == Ok::<Decimal, DbErr>(
            Decimal { mantissa: v as i128, scale: 0 },
        ),
        outcome::<bool>(Ok(Some(row))) == Err::<bool, DbErr>(DbErr::Decode(DecodeError::Mismatch)),
{
}

/// Executing twice against an unchanged source gives the same result twice:
/// the result depends on what the connection returned and on nothing else.
pub proof fn lemma_execution_idempotent<N: Decodable>(
    first: Result<Option<Row>, DbErr>,
    second: Result<Option<Row>, DbErr>,
)
    requires
        first == second,
    ensures
        outcome::<N>(first) == outcome::<N>(second),
{
}

/// A selection: an already-built query whose rows an aggregate is taken over.
pub struct Selection {
    query: sea_query::SelectStatement,
}

impl Selection {
    /// The selection's query.
    pub closed spec fn query_spec(&self) -> sea_query::SelectStatement {
        self.query
    }

    /// A selection over the rows of `query`.
    pub fn new(query: sea_query::SelectStatement) -> (r: Selection)
        ensures
            r.query_spec() == query,
    {
        Selection { query }
    }

    /// The selection's query.
    pub fn query(&self) -> (r: &sea_query::SelectStatement)
        ensures
            *r == self.query_spec(),
    {
        &self.query
    }
}

/// The aggregates that can be taken over a selection. Each borrows the
/// selection and leaves it as it was.
pub trait AggregatorTrait {
    /// The statement whose rows are aggregated.
    spec fn inner_query(&self) -> sea_query::SelectStatement;

    /// `COUNT` over `column`.
    fn count(&self, column: &str) -> (r: Aggregator)
        ensures
            r.function_spec() == AggregateFunction::Count,
            r.column_spec() == column@,
            wraps(r.query_spec(), self.inner_query(), AggregateFunction::Count, column@),
    ;

    /// `SUM` over `column`.
    fn sum(&self, column: &str) -> (r: Aggregator)
        ensures
            r.function_spec() == AggregateFunction::Sum,
            r.column_spec() == column@,
            wraps(r.query_spec(), self.inner_query(), AggregateFunction::Sum, column@),
    ;

    /// `MIN` over `column`.
    fn min(&self, column: &str) -> (r: Aggregator)
        ensures
            r.function_spec() == AggregateFunction::Min,
            r.column_spec() == column@,
            wraps(r.query_spec(), self.inner_query(), AggregateFunction::Min, column@),
    ;

    /// `MAX` over `column`.
    fn max(&self, column: &str) -> (r: Aggregator)
        ensures
            r.function_spec() == AggregateFunction::Max,
            r.column_spec() == column@,
            wraps(r.query_spec(), self.inner_query(), AggregateFunction::Max, column@),
    ;

    /// `AVG` over `column`.
    fn avg(&self, column: &str) -> (r: Aggregator)
        ensures
            r.function_spec() == AggregateFunction::Avg,
            r.column_spec() == column@,
            wraps(r.query_spec(), self.inner_query(), AggregateFunction::Avg, column@),
    ;
}

impl AggregatorTrait for Selection {
    open spec fn inner_query(&self) -> sea_query::SelectStatement {
        self.query_spec()
    }

    fn count(&self, column: &str) -> (r: Aggregator) {
        Aggregator::wrap(&self.query, AggregateFunction::Count, column)
    }

    fn sum(&self, column: &str) -> (r: Aggregator) {
        Aggregator::wrap(&self.query, AggregateFunction::Sum, column)
    }

    fn min(&self, column: &str) -> (r: Aggregator) {
        Aggregator::wrap(&self.query, AggregateFunction::Min, column)
    }

    fn max(&self, column: &str) -> (r: Aggregator) {
        Aggregator::wrap(&self.query, AggregateFunction::Max, column)
    }

    fn avg(&self, column: &str) -> (r: Aggregator) {
        Aggregator::wrap(&self.query, AggregateFunction::Avg, column)
    }
}

} // verus!
