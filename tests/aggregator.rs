use sea_aggregate::aggregate::{aggregate_expr, result_alias, subquery_alias, AggregateFunction};
use sea_aggregate::aggregator::{Aggregator, AggregatorTrait, Selection};
use sea_aggregate::decode::{Cell, DbErr, Decimal, DecodeError, Decodable, Row};
use sea_query::{PostgresQueryBuilder, Query};

const FRUIT_SQL: &str = r#"SELECT "fruit"."id", "fruit"."name", "fruit"."cake_id" FROM "fruit""#;

fn fruit_selection() -> Selection {
    let query = Query::select()
        .column(("fruit", "id"))
        .column(("fruit", "name"))
        .column(("fruit", "cake_id"))
        .from("fruit")
        .to_owned();
    Selection::new(query)
}

fn render(aggregator: &Aggregator) -> String {
    aggregator.query().to_string(PostgresQueryBuilder)
}

fn result_row(cell: Cell) -> Row {
    let mut row = Row::new();
    row.push("s".to_string(), cell);
    row
}

#[test]
fn count() {
    let sum = 6;
    let aggregator = fruit_selection().sum("id");
    assert_eq!(
        render(&aggregator),
        "SELECT SUM(\"sub_query\".\"id\") AS \"s\" FROM (SELECT \"fruit\".\"id\", \"fruit\".\"name\", \"fruit\".\"cake_id\" FROM \"fruit\") AS \"sub_query\""
    );
    let result = aggregator.one::<i64>(Ok(Some(result_row(Cell::Int(sum)))));
    assert_eq!(result, Ok(sum));
}

#[test]
fn inner_selection_is_rendered_unchanged() {
    let selection = fruit_selection();
    assert_eq!(selection.query().to_string(PostgresQueryBuilder), FRUIT_SQL);
}

#[test]
fn wrapping_leaves_selection_unchanged() {
    let selection = fruit_selection();
    let before = selection.query().to_string(PostgresQueryBuilder);
    let aggregator = selection.count("id");
    let after = selection.query().to_string(PostgresQueryBuilder);
    assert_eq!(before, after);
    assert_eq!(after, FRUIT_SQL);
    assert_eq!(aggregator.function(), AggregateFunction::Count);
    assert_eq!(aggregator.column(), "id");
}

#[test]
fn each_aggregate_renders_its_keyword() {
    let selection = fruit_selection();
    let cases = [
        (selection.count("id"), "COUNT"),
        (selection.sum("id"), "SUM"),
        (selection.min("id"), "MIN"),
        (selection.max("id"), "MAX"),
        (selection.avg("id"), "AVG"),
    ];
    for (aggregator, keyword) in cases.iter() {
        let expected = format!(
            "SELECT {}(\"sub_query\".\"id\") AS \"s\" FROM ({}) AS \"sub_query\"",
            keyword, FRUIT_SQL
        );
        assert_eq!(render(aggregator), expected);
        assert_eq!(aggregator.expression(), format!("{}(\"sub_query\".\"id\")", keyword));
    }
}

#[test]
fn aggregate_expression_text() {
    assert_eq!(aggregate_expr(AggregateFunction::Sum, "cake_id"), "SUM(\"sub_query\".\"cake_id\")");
    assert_eq!(aggregate_expr(AggregateFunction::Count, ""), "COUNT(\"sub_query\".\"\")");
    assert_eq!(AggregateFunction::Avg.keyword(), "AVG");
    assert_eq!(subquery_alias(), "sub_query");
    assert_eq!(result_alias(), "s");
}

#[test]
fn empty_source_yields_zero() {
    let selection = fruit_selection();
    assert_eq!(selection.count("id").one::<u64>(Ok(None)), Ok(0));
    assert_eq!(selection.sum("id").one::<i64>(Ok(None)), Ok(0));
    assert_eq!(selection.min("id").one::<i32>(Ok(None)), Ok(0));
    assert_eq!(selection.max("id").one::<u32>(Ok(None)), Ok(0));
    assert_eq!(selection.avg("id").one::<i64>(Ok(None)), Ok(0));
}

#[test]
fn null_result_is_a_decode_error_for_every_aggregate() {
    let selection = fruit_selection();
    let null = Err(DbErr::Decode(DecodeError::Null));
    assert_eq!(selection.sum("id").one::<i64>(Ok(Some(result_row(Cell::Null)))), null);
    assert_eq!(selection.min("id").one::<i64>(Ok(Some(result_row(Cell::Null)))), null);
    assert_eq!(selection.max("id").one::<i64>(Ok(Some(result_row(Cell::Null)))), null);
    assert_eq!(selection.avg("id").one::<i64>(Ok(Some(result_row(Cell::Null)))), null);
    let bool_null: Result<bool, DbErr> = Err(DbErr::Decode(DecodeError::Null));
    assert_eq!(selection.sum("id").one::<bool>(Ok(Some(result_row(Cell::Null)))), bool_null);
}

#[test]
fn integral_result_decodes_into_each_integer_type() {
    let aggregator = fruit_selection().sum("id");
    assert_eq!(aggregator.one::<i64>(Ok(Some(result_row(Cell::Int(6))))), Ok(6i64));
    assert_eq!(aggregator.one::<u64>(Ok(Some(result_row(Cell::Int(6))))), Ok(6u64));
    assert_eq!(aggregator.one::<i32>(Ok(Some(result_row(Cell::Int(6))))), Ok(6i32));
    assert_eq!(aggregator.one::<u32>(Ok(Some(result_row(Cell::UInt(6))))), Ok(6u32));
    assert_eq!(
        aggregator.one::<bool>(Ok(Some(result_row(Cell::Int(6))))),
        Err(DbErr::Decode(DecodeError::Mismatch))
    );
    assert_eq!(
        aggregator.one::<i64>(Ok(Some(result_row(Cell::Text("6".to_string()))))),
        Err(DbErr::Decode(DecodeError::Mismatch))
    );
}

#[test]
fn three_rows_of_one() {
    let selection = fruit_selection();
    let count = selection.count("id");
    let sum = selection.sum("id");
    assert_eq!(
        render(&count),
        format!("SELECT COUNT(\"sub_query\".\"id\") AS \"s\" FROM ({}) AS \"sub_query\"", FRUIT_SQL)
    );
    assert_eq!(count.one::<u64>(Ok(Some(result_row(Cell::Int(3))))), Ok(3));
    assert_eq!(sum.one::<i64>(Ok(Some(result_row(Cell::Int(3))))), Ok(3));
}

#[test]
fn executing_twice_gives_the_same_result() {
    let aggregator = fruit_selection().sum("id");
    let first = aggregator.one::<i64>(Ok(Some(result_row(Cell::Int(6)))));
    let second = aggregator.one::<i64>(Ok(Some(result_row(Cell::Int(6)))));
    assert_eq!(first, second);
    assert_eq!(render(&aggregator), render(&aggregator));
}

#[test]
fn connection_error_is_passed_on_verbatim() {
    let aggregator = fruit_selection().count("id");
    let err = DbErr::Exec("relation \"fruit\" does not exist".to_string());
    assert_eq!(aggregator.one::<u64>(Err(err.clone())), Err(err));
}

#[test]
fn missing_result_column() {
    let aggregator = fruit_selection().count("id");
    let mut row = Row::new();
    row.push("num".to_string(), Cell::Int(3));
    assert_eq!(aggregator.one::<u64>(Ok(Some(row))), Err(DbErr::Decode(DecodeError::Missing)));
}

#[test]
fn out_of_range_results() {
    let aggregator = fruit_selection().sum("id");
    assert_eq!(
        aggregator.one::<u64>(Ok(Some(result_row(Cell::Int(-1))))),
        Err(DbErr::Decode(DecodeError::OutOfRange))
    );
    assert_eq!(
        aggregator.one::<i64>(Ok(Some(result_row(Cell::UInt(u64::MAX))))),
        Err(DbErr::Decode(DecodeError::OutOfRange))
    );
    assert_eq!(
        aggregator.one::<i32>(Ok(Some(result_row(Cell::Int(i64::from(i32::MAX) + 1))))),
        Err(DbErr::Decode(DecodeError::OutOfRange))
    );
    assert_eq!(
        aggregator.one::<u32>(Ok(Some(result_row(Cell::Int(i64::from(u32::MAX)))))),
        Ok(u32::MAX)
    );
    assert_eq!(
        aggregator.one::<i64>(Ok(Some(result_row(Cell::UInt(i64::MAX as u64))))),
        Ok(i64::MAX)
    );
}

#[test]
fn row_lookup_takes_the_first_match() {
    let mut row = Row::new();
    row.push("s".to_string(), Cell::Int(1));
    row.push("s".to_string(), Cell::Int(2));
    row.push("xs".to_string(), Cell::Bool(true));
    assert_eq!(row.get("s"), Some(&Cell::Int(1)));
    assert_eq!(row.get("t"), None);
    assert_eq!(row.try_get::<bool>("x", "s"), Ok(true));
    assert_eq!(row.try_get::<i64>("", "s"), Ok(1));
    assert_eq!(row.try_get::<i64>("", "y"), Err(DecodeError::Missing));
}

#[test]
fn zero_values() {
    assert_eq!(<i64 as Decodable>::zero(), 0);
    assert_eq!(<u64 as Decodable>::zero(), 0);
    assert_eq!(<bool as Decodable>::zero(), false);
}

#[test]
fn decimal_results() {
    let aggregator = fruit_selection().avg("id");
    let two_and_a_half = Decimal { mantissa: 25, scale: 1 };
    assert_eq!(
        aggregator.one::<Decimal>(Ok(Some(result_row(Cell::Decimal(two_and_a_half))))),
        Ok(two_and_a_half)
    );
    assert_eq!(
        aggregator.one::<Decimal>(Ok(Some(result_row(Cell::Int(6))))),
        Ok(Decimal { mantissa: 6, scale: 0 })
    );
    assert_eq!(aggregator.one::<Decimal>(Ok(None)), Ok(Decimal { mantissa: 0, scale: 0 }));
    let sum = fruit_selection().sum("id");
    let six = Cell::Decimal(Decimal { mantissa: 6, scale: 0 });
    assert_eq!(sum.one::<i64>(Ok(Some(result_row(six.clone())))), Ok(6));
    assert_eq!(sum.one::<u64>(Ok(Some(result_row(six)))), Ok(6));
    assert_eq!(
        sum.one::<i64>(Ok(Some(result_row(Cell::Decimal(two_and_a_half))))),
        Err(DbErr::Decode(DecodeError::Mismatch))
    );
    assert_eq!(
        sum.one::<i32>(Ok(Some(result_row(Cell::Decimal(Decimal { mantissa: 1i128 << 40, scale: 0 }))))),
        Err(DbErr::Decode(DecodeError::OutOfRange))
    );
}
