//! How the answer of a single-row lookup in the store becomes a result.

use vstd::prelude::*;

verus! {

/// What the store answered to a query that asks for one row.
#[derive(Debug, Clone, PartialEq, Eq)]
pub enum Fetched<T, E> {
    /// The row that was found.
    Row(T),
    /// No row matched.
    RowNotFound,
    /// The store failed with this error.
    Failed(E),
}

/// The result of a lookup by name: a missing row is no error but `None`;
/// only a failure of the store is an error, and it is passed on as it came.
pub fn row_or_none<T, E>(fetched: Fetched<T, E>) -> (res: Result<Option<T>, E>)
    ensures
        match fetched {
            Fetched::Row(row) => res == Ok::<Option<T>, E>(Some(row)),
            Fetched::RowNotFound => res == Ok::<Option<T>, E>(None),
            Fetched::Failed(e) => res == Err::<Option<T>, E>(e),
        },
{
    match fetched {
        Fetched::Row(row) => Ok(Some(row)),
        Fetched::RowNotFound => Ok(None),
        Fetched::Failed(e) => Err(e),
    }
}

} // verus!
