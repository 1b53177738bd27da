use vstd::prelude::*;
use vstd::string::*;

verus! {

/// The aggregate functions that can be applied to a column of a selection.
#[derive(Clone, Copy, Debug, PartialEq, Eq, Structural)]
pub enum AggregateFunction {
    Count,
    Sum,
    Min,
    Max,
    Avg,
}

/// The SQL keyword of an aggregate function.
pub open spec fn keyword_of(f: AggregateFunction) -> Seq<char> {
    match f {
        AggregateFunction::Count => seq!['C', 'O', 'U', 'N', 'T'],
        AggregateFunction::Sum => seq!['S', 'U', 'M'],
        AggregateFunction::Min => seq!['M', 'I', 'N'],
        AggregateFunction::Max => seq!['M', 'A', 'X'],
        AggregateFunction::Avg => seq!['A', 'V', 'G'],
    }
}

/// The alias under which the inner selection is embedded: `sub_query`.
pub open spec fn subquery_alias_spec() -> Seq<char> {
    seq!['s', 'u', 'b', '_', 'q', 'u', 'e', 'r', 'y']
}

/// The alias of the single result column: `s`.
pub open spec fn result_alias_spec() -> Seq<char> {
    seq!['s']
}

/// A double quote, the SQL identifier quote.
pub open spec fn quote() -> Seq<char> {
    seq!['"']
}

/// `name` between identifier quotes.
pub open spec fn quoted(name: Seq<char>) -> Seq<char> {
    quote() + name + quote()
}

/// The aggregate expression over `column` of the wrapped selection:
/// `<KEYWORD>("sub_query"."<column>")`.
pub open spec fn aggregate_expr_spec(f: AggregateFunction, column: Seq<char>) -> Seq<char> {
    keyword_of(f) + seq!['('] + quoted(subquery_alias_spec()) + seq!['.'] + quoted(column) + seq![
        ')',
    ]
}

impl AggregateFunction {
    /// The SQL keyword of this aggregate function.
    pub fn keyword(&self) -> (r: &'static str)
        ensures
            r@ == keyword_of(*self),
    {
        match self {
            AggregateFunction::Count => {
                proof {
                    reveal_strlit("COUNT");
                }
                "COUNT"
            },
            AggregateFunction::Sum => {
                proof {
                    reveal_strlit("SUM");
                }
                "SUM"
            },
            AggregateFunction::Min => {
                proof {
                    reveal_strlit("MIN");
                }
                "MIN"
            },
            AggregateFunction::Max => {
                proof {
                    reveal_strlit("MAX");
                }
                "MAX"
            },
            AggregateFunction::Avg => {
                proof {
                    reveal_strlit("AVG");
                }
                "AVG"
            },
        }
    }
}

/// The alias under which the inner selection is embedded.
pub fn subquery_alias() -> (r: &'static str)
    ensures
        r@ == subquery_alias_spec(),
{
    proof {
        reveal_strlit("sub_query");
    }
    "sub_query"
}

/// The alias of the single result column.
pub fn result_alias() -> (r: &'static str)
    ensures
        r@ == result_alias_spec(),
{
    proof {
        reveal_strlit("s");
    }
    "s"
}

/// Renders the aggregate expression `<KEYWORD>("sub_query"."<column>")`.
pub fn aggregate_expr(f: AggregateFunction, column: &str) -> (r: String)
    ensures
        r@ == aggregate_expr_spec(f, column@),
{
    let mut s = String::from_str(f.keyword());
    proof {
        reveal_strlit("(\"");
        reveal_strlit("\".\"");
        reveal_strlit("\")");
    }
    s.append("(\"");
    s.append(subquery_alias());
    s.append("\".\"");
    s.append(column);
    s.append("\")");
    assert(s@ =~= aggregate_expr_spec(f, column@));
    s
}

} // verus!
