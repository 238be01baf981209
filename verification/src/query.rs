//! Queries that select the rows whose column holds one of a list of values.
//!
//! The values never enter the SQL text: each is bound to a placeholder, so that no
//! value can be read as SQL.

use vstd::prelude::*;

verus! {

/// A query for a Postgres database in the making: its SQL text so far, and the values
/// bound to its placeholders. Holds a `sqlx::QueryBuilder`, of which Verus sees
/// nothing: what the contracts of this module say of a query, they say through
/// `query_text` and `query_arguments`.
#[verifier::external_body]
pub struct InQuery<'a> {
    /// The builder, for the caller to run the query with or to bind more to.
    pub builder: sqlx::QueryBuilder<'a, sqlx::Postgres>,
}

/// The SQL text that a query holds.
pub uninterp spec fn query_text(query: InQuery<'_>) -> Seq<char>;

/// The values that are bound to a query, in the order of their placeholders; `None`
/// once the query was built and its builder not reset.
pub uninterp spec fn query_arguments(query: InQuery<'_>) -> Option<Seq<i64>>;

/// The decimal digit of `d`, for `d` below ten.
pub open spec fn digit(d: nat) -> char {
    if d == 0 {
        '0'
    } else if d == 1 {
        '1'
    } else if d == 2 {
        '2'
    } else if d == 3 {
        '3'
    } else if d == 4 {
        '4'
    } else if d == 5 {
        '5'
    } else if d == 6 {
        '6'
    } else if d == 7 {
        '7'
    } else if d == 8 {
        '8'
    } else {
        '9'
    }
}

/// The decimal numeral of `n`, without leading zeros.
pub open spec fn decimal(n: nat) -> Seq<char>
    decreases n,
{
    if n < 10 {
        seq![digit(n)]
    } else {
        decimal(n / 10).push(digit(n % 10))
    }
}

/// The placeholder of the `position`-th bound value, counted from one: a dollar sign
/// and the position.
pub open spec fn placeholder(position: nat) -> Seq<char> {
    seq!['$'] + decimal(position)
}

/// The placeholders of the first `count` bound values, separated by a comma and a
/// space.
pub open spec fn placeholders(count: nat) -> Seq<char>
    decreases count,
{
    if count == 0 {
        Seq::empty()
    } else if count == 1 {
        placeholder(1)
    } else {
        placeholders((count - 1) as nat) + seq![',', ' '] + placeholder(count)
    }
}

/// The text of the query that selects with `base_query` the rows whose `column` holds
/// one of `count` bound values, and that meet `additional_conditions` where some are
/// given. Without values the query selects no row.
pub open spec fn in_query_text(
    base_query: Seq<char>,
    column: Seq<char>,
    count: nat,
    additional_conditions: Option<Seq<char>>,
) -> Seq<char> {
    if count == 0 {
        base_query + " WHERE 1=0"@
    } else {
        let selection = base_query + " WHERE "@ + column + " IN ("@ + placeholders(count) + ")"@;
        match additional_conditions {
            Some(conditions) => selection + " AND "@ + conditions,
            None => selection,
        }
    }
}

/// Starts a query with `sqlx::QueryBuilder::new`: it holds `init` as its text and no
/// bound value.
#[verifier::external_body]
fn query_new<'a>(init: &str) -> (query: InQuery<'a>)
    ensures
        query_text(query) == init@,
        query_arguments(query) == Some(Seq::<i64>::empty()),
{
    InQuery { builder: sqlx::QueryBuilder::new(init) }
}

/// Appends text with `sqlx::QueryBuilder::push`, which panics on a builder whose
/// arguments were taken, and else writes `sql` behind the text and leaves the bound
/// values alone.
#[verifier::external_body]
fn query_push(query: &mut InQuery<'_>, sql: &str)
    requires
        query_arguments(*old(query)) is Some,
    ensures
        query_text(*final(query)) == query_text(*old(query)) + sql@,
        query_arguments(*final(query)) == query_arguments(*old(query)),
{
    query.builder.push(sql);
}

/// Binds a value with `sqlx::QueryBuilder::push_bind`, which panics on a builder whose
/// arguments were taken, and else adds `value` to the bound values and writes its
/// placeholder behind the text: for Postgres a dollar sign and the number of values
/// bound so far, this one included.
#[verifier::external_body]
fn query_push_bind<'a>(query: &mut InQuery<'a>, value: &'a i64)
    requires
        query_arguments(*old(query)) is Some,
    ensures
        query_text(*final(query)) == query_text(*old(query)) + placeholder(
            query_arguments(*old(query))->Some_0.len() + 1,
        ),
        query_arguments(*final(query)) == Some(query_arguments(*old(query))->Some_0.push(*value)),
{
    query.builder.push_bind(value);
}

/// Builds a query with an `IN` clause and optional additional conditions.
///
/// * `base_query`: the SQL query to build upon.
/// * `column`: the name of the column for the `IN` clause.
/// * `values`: the values for the `IN` clause; each is bound to a placeholder.
/// * `additional_conditions`: conditions to add behind the `IN` clause.
///
/// Without values the query is `base_query` with a condition that no row meets.
pub fn build_query_with_in<'a>(
    base_query: &str,
    column: &str,
    values: &'a [i64],
    additional_conditions: Option<&str>,
) -> (query: InQuery<'a>)
    ensures
        query_text(query) == in_query_text(
            base_query@,
            column@,
            values@.len(),
            match additional_conditions {
                Some(conditions) => Some(conditions@),
                None => None,
            },
        ),
        query_arguments(query) == Some(values@),
{
    let mut query = query_new(base_query);
    if values.len() == 0 {
        query_push(&mut query, " WHERE 1=0");
        proof {
            assert(values@ =~= Seq::<i64>::empty());
        }
        return query;
    }
    query_push(&mut query, " WHERE ");
    query_push(&mut query, column);
    query_push(&mut query, " IN (");
    let ghost opening = base_query@ + " WHERE "@ + column@ + " IN ("@;
    proof {
        assert(opening + placeholders(0) =~= opening);
        assert(values@.take(0) =~= Seq::<i64>::empty());
    }
    let mut i: usize = 0;
    while i < values.len()
        invariant
            i <= values.len(),
            query_text(query) == opening + placeholders(i as nat),
            query_arguments(query) == Some(values@.take(i as int)),
        decreases values.len() - i,
    {
        if i > 0 {
            proof {
                reveal_strlit(", ");
                assert(", "@ =~= seq![',', ' ']);
            }
            query_push(&mut query, ", ");
        }
        query_push_bind(&mut query, &values[i]);
        proof {
            assert(values@.take(i as int).push(values@[i as int]) =~= values@.take(i + 1));
            if i > 0 {
                assert(opening + placeholders(i as nat) + seq![',', ' '] + placeholder(
                    (i + 1) as nat,
                ) =~= opening + placeholders((i + 1) as nat));
            } else {
                assert(opening + placeholders(0) + placeholder(1) =~= opening + placeholders(1));
            }
        }
        i = i + 1;
    }
    proof {
        assert(values@.take(values@.len() as int) =~= values@);
    }
    query_push(&mut query, ")");
    if let Some(conditions) = additional_conditions {
        query_push(&mut query, " AND ");
        query_push(&mut query, conditions);
    }
    query
}

} // verus!
