use vstd::prelude::*;

verus! {

/// sea_query's select statement, carried through as an opaque value.
#[verifier::external_type_specification]
#[verifier::external_body]
pub struct ExSelectStatement(sea_query::SelectStatement);

/// sea_query's expression tree, carried through as an opaque value.
#[verifier::external_type_specification]
#[verifier::external_body]
pub struct ExExpr(sea_query::Expr);

/// The projected expressions of a statement, in order, each with its alias.
pub uninterp spec fn projections_of(q: sea_query::SelectStatement) -> Seq<(sea_query::Expr, Seq<char>)>;

/// The subqueries a statement selects from, in order, each with its alias.
pub uninterp spec fn subqueries_of(q: sea_query::SelectStatement) -> Seq<(sea_query::SelectStatement, Seq<char>)>;

/// The statement has nothing but its projections and its subquery sources: no
/// table source, join, DISTINCT, WHERE, GROUP BY, HAVING, UNION, ORDER BY,
/// LIMIT, OFFSET, lock, window, WITH or INTO.
pub uninterp spec fn only_projections_and_subqueries(q: sea_query::SelectStatement) -> bool;

/// The custom expression that renders as the SQL text `sql`, verbatim.
pub uninterp spec fn custom_of(sql: Seq<char>) -> sea_query::Expr;

/// Relies on `SelectStatement`'s derived `Clone`: a field-by-field copy.
pub assume_specification[ <sea_query::SelectStatement as Clone>::clone ](
    s: &sea_query::SelectStatement,
) -> (r: sea_query::SelectStatement)
    ensures
        r == *s,
;

/// Relies on sea_query::SelectStatement::new, which is `Self::default()`: a
/// statement with no projection, no source and no other clause.
#[verifier::external_body]
pub(crate) fn new_select() -> (r: sea_query::SelectStatement)
    ensures
        projections_of(r) == Seq::<(sea_query::Expr, Seq<char>)>::empty(),
        subqueries_of(r) == Seq::<(sea_query::SelectStatement, Seq<char>)>::empty(),
        only_projections_and_subqueries(r),
{
    sea_query::SelectStatement::new()
}

/// Relies on sea_query::Expr::cust: the variant `Custom` holding the SQL text.
#[verifier::external_body]
pub(crate) fn custom_expr(sql: String) -> (r: sea_query::Expr)
    ensures
        r == custom_of(sql@),
{
    sea_query::Expr::cust(sql)
}

/// Relies on sea_query::SelectStatement::expr_as: appends one projection,
/// `expr` under the column alias `alias`; nothing else changes.
#[verifier::external_body]
pub(crate) fn add_expr_as(query: &mut sea_query::SelectStatement, expr: sea_query::Expr, alias: &str)
    ensures
        projections_of(*final(query)) == projections_of(*old(query)).push((expr, alias@)),
        subqueries_of(*final(query)) == subqueries_of(*old(query)),
        only_projections_and_subqueries(*final(query)) == only_projections_and_subqueries(
            *old(query),
        ),
{
    query.expr_as(expr, sea_query::Alias::new(alias));
}

/// Relies on sea_query::SelectStatement::from_subquery: appends one source,
/// `sub` embedded as a subquery under the table alias `alias`; nothing
/// else changes.
#[verifier::external_body]
pub(crate) fn add_from_subquery(
    query: &mut sea_query::SelectStatement,
    sub: sea_query::SelectStatement,
    alias: &str,
)
    ensures
        subqueries_of(*final(query)) == subqueries_of(*old(query)).push((sub, alias@)),
        projections_of(*final(query)) == projections_of(*old(query)),
        only_projections_and_subqueries(*final(query)) == only_projections_and_subqueries(
            *old(query),
        ),
{
    query.from_subquery(sub, sea_query::Alias::new(alias));
}

} // verus!
