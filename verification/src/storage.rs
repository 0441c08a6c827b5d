//! What the storage engine answers when the service asks it to run a statement.

use vstd::prelude::*;
use crate::response::user_views;
use crate::user::{User, UserView};

verus! {

/// A failure reported by the storage engine, carried as the engine's own text.
#[derive(Debug, PartialEq, Eq)]
pub struct StorageError {
    pub detail: String,
}

impl View for StorageError {
    type V = Seq<char>;

    open spec fn view(&self) -> Seq<char> {
        self.detail@
    }
}

/// The answer to a statement that selects any number of rows.
pub open spec fn rows_view(outcome: Result<Vec<User>, StorageError>) -> Result<
    Seq<UserView>,
    Seq<char>,
> {
    match outcome {
        Ok(rows) => Ok(user_views(rows@)),
        Err(error) => Err(error@),
    }
}

/// The answer to a statement that selects at most one row.
pub open spec fn row_view(outcome: Result<Option<User>, StorageError>) -> Result<
    Option<UserView>,
    Seq<char>,
> {
    match outcome {
        Ok(Some(user)) => Ok(Some(user@)),
        Ok(None) => Ok(None),
        Err(error) => Err(error@),
    }
}

/// The answer to a statement that must select exactly one row.
pub open spec fn one_view(outcome: Result<User, StorageError>) -> Result<UserView, Seq<char>> {
    match outcome {
        Ok(user) => Ok(user@),
        Err(error) => Err(error@),
    }
}

/// The answer to a statement that changes rows: how many it affected.
pub open spec fn count_view(outcome: Result<u64, StorageError>) -> Result<nat, Seq<char>> {
    match outcome {
        Ok(count) => Ok(count as nat),
        Err(error) => Err(error@),
    }
}

} // verus!
