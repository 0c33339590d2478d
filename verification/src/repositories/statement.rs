//! SQL statements as values: the text, the values bound to its placeholders,
//! and what the caller is to fetch when it runs them.

use vstd::prelude::*;

verus! {

/// A value bound to a placeholder.
#[derive(Debug, Clone, PartialEq, Eq)]
pub enum SqlValue {
    Uuid(u128),
    Text(String),
}

/// A bound value as plain values.
pub enum SqlValueView {
    Uuid(u128),
    Text(Seq<char>),
}

impl View for SqlValue {
    type V = SqlValueView;

    open spec fn view(&self) -> SqlValueView {
        match *self {
            SqlValue::Uuid(id) => SqlValueView::Uuid(id),
            SqlValue::Text(t) => SqlValueView::Text(t@),
        }
    }
}

/// The type that a statement declares for a placeholder.
#[derive(Debug, Clone, Copy, PartialEq, Eq)]
pub enum SqlType {
    Uuid,
    Varchar,
    Text,
}

/// What running a statement is to bring back.
#[derive(Debug, Clone, Copy, PartialEq, Eq)]
pub enum Fetch {
    /// Exactly one row; none, or more than one, is a failure.
    One,
    /// All rows, in the order in which the database gives them.
    All,
    /// No row, only the number of rows that the statement changed.
    Affected,
}

/// A statement to run. `types` is empty where the database is left to infer
/// the types of the placeholders, and else names one type for each.
#[derive(Debug, Clone, PartialEq, Eq)]
pub struct Statement {
    pub sql: String,
    pub types: Vec<SqlType>,
    pub params: Vec<SqlValue>,
    pub fetch: Fetch,
}

/// A statement as plain values.
pub struct StatementView {
    pub sql: Seq<char>,
    pub types: Seq<SqlType>,
    pub params: Seq<SqlValueView>,
    pub fetch: Fetch,
}

impl View for Statement {
    type V = StatementView;

    open spec fn view(&self) -> StatementView {
        StatementView {
            sql: self.sql@,
            types: self.types@,
            params: self.params@.map_values(|p: SqlValue| p@),
            fetch: self.fetch,
        }
    }
}

} // verus!
