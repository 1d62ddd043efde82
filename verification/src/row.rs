//! The write request that travels from a producer to the worker.

use vstd::prelude::*;

verus! {

/// What a write request is, mathematically: the statement text and the
/// arguments bound to it, in order.
pub struct RowView<T> {
    pub query: Seq<char>,
    pub args: Seq<T>,
}

/// One parameterised write: a statement and the values bound to its
/// placeholders. Every request of one sink carries the same argument type.
#[derive(Debug)]
pub struct CPostgresRow<T> {
    pub query: String,
    pub args: Vec<T>,
}

impl<T> View for CPostgresRow<T> {
    type V = RowView<T>;

    open spec fn view(&self) -> RowView<T> {
        RowView { query: self.query@, args: self.args@ }
    }
}

impl<T> CPostgresRow<T> {
    /// Builds a request from its statement and its arguments.
    pub fn new(query: String, args: Vec<T>) -> (row: Self)
        ensures
            row.query == query,
            row.args == args,
            row@ == (RowView { query: query@, args: args@ }),
    {
        Self { query, args }
    }
}

} // verus!
