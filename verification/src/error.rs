//! The failures of a load.

use vstd::prelude::*;
use vstd::string::*;

verus! {

/// Why a load failed. Every failure is fatal for the whole load: nothing is
/// committed.
#[derive(Clone, Debug, PartialEq, Eq)]
pub enum LoadError {
    /// The item at `index` of the input cannot be read as a mapping.
    Malformed { index: usize },
    /// The destination store could not be opened.
    Connect { cause: String },
    /// The insert statement could not be prepared.
    Prepare { cause: String },
    /// The transaction could not be opened.
    Begin { cause: String },
    /// The store refused the row at `row`.
    Insert { row: usize, cause: String },
    /// The transaction could not be committed.
    Commit { cause: String },
}

/// The mathematical content of a [`LoadError`].
pub enum LoadErrorModel {
    Malformed { index: nat },
    Connect { cause: Seq<char> },
    Prepare { cause: Seq<char> },
    Begin { cause: Seq<char> },
    Insert { row: nat, cause: Seq<char> },
    Commit { cause: Seq<char> },
}

impl View for LoadError {
    type V = LoadErrorModel;

    open spec fn view(&self) -> LoadErrorModel {
        match self {
            LoadError::Malformed { index } => LoadErrorModel::Malformed { index: *index as nat },
            LoadError::Connect { cause } => LoadErrorModel::Connect { cause: cause@ },
            LoadError::Prepare { cause } => LoadErrorModel::Prepare { cause: cause@ },
            LoadError::Begin { cause } => LoadErrorModel::Begin { cause: cause@ },
            LoadError::Insert { row, cause } => LoadErrorModel::Insert {
                row: *row as nat,
                cause: cause@,
            },
            LoadError::Commit { cause } => LoadErrorModel::Commit { cause: cause@ },
        }
    }
}

impl LoadErrorModel {
    /// The text that describes the failure: what failed, then the cause
    /// that the store gave for it.
    pub open spec fn message(self) -> Seq<char> {
        match self {
            LoadErrorModel::Malformed { index } => "Failed to read record: not a mapping"@,
            LoadErrorModel::Connect { cause } => "Failed to connect to DuckDB: "@ + cause,
            LoadErrorModel::Prepare { cause } => "Failed to prepare statement: "@ + cause,
            LoadErrorModel::Begin { cause } => "Failed to begin transaction: "@ + cause,
            LoadErrorModel::Insert { row, cause } => "Failed to insert tick: "@ + cause,
            LoadErrorModel::Commit { cause } => "Failed to commit transaction: "@ + cause,
        }
    }
}

impl LoadError {
    /// The text that describes the failure to a person.
    pub fn message(&self) -> (text: String)
        ensures
            text@ == self@.message(),
    {
        match self {
            LoadError::Malformed { index } => "Failed to read record: not a mapping".to_owned(),
            LoadError::Connect { cause } => "Failed to connect to DuckDB: ".to_owned().concat(
                cause.as_str(),
            ),
            LoadError::Prepare { cause } => "Failed to prepare statement: ".to_owned().concat(
                cause.as_str(),
            ),
            LoadError::Begin { cause } => "Failed to begin transaction: ".to_owned().concat(
                cause.as_str(),
            ),
            LoadError::Insert { row, cause } => "Failed to insert tick: ".to_owned().concat(
                cause.as_str(),
            ),
            LoadError::Commit { cause } => "Failed to commit transaction: ".to_owned().concat(
                cause.as_str(),
            ),
        }
    }
}

} // verus!
