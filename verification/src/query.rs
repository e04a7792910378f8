//! Incremental construction of parameterized SQL statements.
//!
//! A statement is its SQL text plus the ordered values bound to the `$1`,
//! `$2`, ... placeholders in that text. Filter values are never written
//! into the text itself: every predicate renders as `column = $n` and the
//! value travels separately, so the text cannot be injected through. The
//! builder appends predicates one by one, inserting ` WHERE ` before the
//! first and ` AND ` before every later one, and can finish a data
//! statement with bound `LIMIT`/`OFFSET` parameters.

use vstd::prelude::*;
use vstd::string::*;

verus! {

/// A value bound to one placeholder of a statement.
#[derive(Clone, Debug, PartialEq)]
pub enum BindValue {
    Text(String),
    Int(i64),
}

/// Mathematical shape of a bound value.
pub enum SqlValue {
    Text(Seq<char>),
    Int(int),
}

impl View for BindValue {
    type V = SqlValue;

    open spec fn view(&self) -> SqlValue {
        match self {
            BindValue::Text(s) => SqlValue::Text(s@),
            BindValue::Int(n) => SqlValue::Int(*n as int),
        }
    }
}

/// The bound values of a statement, as their mathematical shapes.
pub open spec fn binds_view(s: Seq<BindValue>) -> Seq<SqlValue> {
    s.map_values(|b: BindValue| b@)
}

/// One finished statement: SQL text and the values bound to its
/// placeholders, in placeholder order.
#[derive(Debug)]
pub struct Statement {
    pub sql: String,
    pub binds: Vec<BindValue>,
}

/// Placeholder text for parameter number `n` (1-based).
pub open spec fn placeholder_view(n: int) -> Seq<char> {
    if n == 1 {
        "$1"@
    } else if n == 2 {
        "$2"@
    } else if n == 3 {
        "$3"@
    } else if n == 4 {
        "$4"@
    } else if n == 5 {
        "$5"@
    } else if n == 6 {
        "$6"@
    } else if n == 7 {
        "$7"@
    } else if n == 8 {
        "$8"@
    } else {
        "$9"@
    }
}

fn placeholder(n: usize) -> (r: &'static str)
    requires
        1 <= n <= 9,
    ensures
        r@ == placeholder_view(n as int),
{
    match n {
        1 => "$1",
        2 => "$2",
        3 => "$3",
        4 => "$4",
        5 => "$5",
        6 => "$6",
        7 => "$7",
        8 => "$8",
        _ => "$9",
    }
}

/// Text inserted before a predicate: ` WHERE ` before the first one,
/// ` AND ` between later ones, so no dangling conjunction ever appears.
pub open spec fn connector_view(n_predicates_before: int) -> Seq<char> {
    if n_predicates_before == 0 {
        " WHERE "@
    } else {
        " AND "@
    }
}

/// Builds one statement by appending predicates (and, for a data
/// statement, a trailing `LIMIT`/`OFFSET` pair) to a fixed base clause.
#[derive(Debug)]
pub struct QueryBuilder {
    sql: String,
    binds: Vec<BindValue>,
    n_predicates: usize,
}

impl QueryBuilder {
    /// The SQL text accumulated so far.
    pub closed spec fn sql_view(self) -> Seq<char> {
        self.sql@
    }

    /// The values bound so far, in placeholder order.
    pub closed spec fn binds_spec(self) -> Seq<SqlValue> {
        binds_view(self.binds@)
    }

    /// How many predicates have been appended so far.
    pub closed spec fn predicates(self) -> int {
        self.n_predicates as int
    }

    /// Starts a statement from its fixed base clause.
    pub fn new(base: &str) -> (qb: QueryBuilder)
        ensures
            qb.sql_view() == base@,
            qb.binds_spec() == Seq::<SqlValue>::empty(),
            qb.predicates() == 0,
    {
        let qb = QueryBuilder { sql: base.to_owned(), binds: Vec::new(), n_predicates: 0 };
        proof {
            assert(binds_view(qb.binds@) =~= Seq::<SqlValue>::empty());
        }
        qb
    }

    /// Appends the equality predicate `column = $n` for a text value. The
    /// value itself is only bound, never written into the text.
    pub fn push_eq_text(&mut self, column: &str, value: &str)
        requires
            old(self).binds_spec().len() < 9,
            old(self).predicates() < usize::MAX as int,
        ensures
            final(self).sql_view() == old(self).sql_view() + connector_view(old(self).predicates())
                + column@ + " = "@ + placeholder_view(old(self).binds_spec().len() as int + 1),
            final(self).binds_spec() == old(self).binds_spec().push(SqlValue::Text(value@)),
            final(self).predicates() == old(self).predicates() + 1,
    {
        if self.n_predicates == 0 {
            self.sql.append(" WHERE ");
        } else {
            self.sql.append(" AND ");
        }
        self.sql.append(column);
        self.sql.append(" = ");
        self.sql.append(placeholder(self.binds.len() + 1));
        let ghost before = self.binds@;
        self.binds.push(BindValue::Text(value.to_owned()));
        self.n_predicates = self.n_predicates + 1;
        proof {
            assert(binds_view(self.binds@) =~= binds_view(before).push(SqlValue::Text(value@)));
        }
    }

    /// Appends ` LIMIT $n OFFSET $m` with both row counts as bound
    /// parameters, never as literals. Used by the data statement only.
    pub fn push_limit_offset(&mut self, limit: i64, offset: i64)
        requires
            old(self).binds_spec().len() + 2 <= 9,
        ensures
            final(self).sql_view() == old(self).sql_view() + " LIMIT "@
                + placeholder_view(old(self).binds_spec().len() as int + 1) + " OFFSET "@
                + placeholder_view(old(self).binds_spec().len() as int + 2),
            final(self).binds_spec() == old(self).binds_spec().push(SqlValue::Int(limit as int)).push(
                SqlValue::Int(offset as int),
            ),
            final(self).predicates() == old(self).predicates(),
    {
        self.sql.append(" LIMIT ");
        self.sql.append(placeholder(self.binds.len() + 1));
        self.sql.append(" OFFSET ");
        self.sql.append(placeholder(self.binds.len() + 2));
        let ghost before = self.binds@;
        self.binds.push(BindValue::Int(limit));
        self.binds.push(BindValue::Int(offset));
        proof {
            assert(binds_view(self.binds@) =~= binds_view(before).push(
                SqlValue::Int(limit as int),
            ).push(SqlValue::Int(offset as int)));
        }
    }

    /// Finishes the statement.
    pub fn into_statement(self) -> (stmt: Statement)
        ensures
            stmt.sql@ == self.sql_view(),
            binds_view(stmt.binds@) == self.binds_spec(),
    {
        Statement { sql: self.sql, binds: self.binds }
    }
}

} // verus!
