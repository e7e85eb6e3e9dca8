//! A SQL statement with positional placeholders and the values bound to
//! them, in order, as the relational store runs it.

use vstd::prelude::*;

verus! {

/// A value bound to a placeholder.
#[derive(Debug, Clone, Copy, PartialEq, Eq, Structural)]
pub enum SqlParam {
    /// A boolean.
    Bool(bool),
    /// An unsigned integer.
    U32(u32),
    /// The stake of the bet being stored, a decimal amount that the storage
    /// layer binds itself.
    Stake,
}

/// A statement and its bound values; each `?` of the text takes the next
/// value.
#[derive(Debug, Clone)]
pub struct SqlQuery {
    /// The text of the statement.
    pub sql: String,
    /// The values bound, in the order of their placeholders.
    pub params: Vec<SqlParam>,
}

} // verus!
