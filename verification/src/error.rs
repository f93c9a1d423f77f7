//! The failures of the data source.

use vstd::prelude::*;

verus! {

/// What can go wrong at the data source.
#[derive(Debug, Clone, Copy, PartialEq, Eq, Structural)]
pub enum DataError {
    /// The database could not be opened or reached.
    DataSourceUnavailable,
    /// A query was refused, for instance for a table that does not exist.
    QueryFailed,
    /// A column has a storage type outside the five cell kinds.
    UnsupportedColumnType,
}

/// When a failure happens: while the browser starts, or once it runs.
#[derive(Debug, Clone, Copy, PartialEq, Eq, Structural)]
pub enum Phase {
    Startup,
    Running,
}

/// Whether a failure ends the program. At startup every failure does: the
/// browser does not start. Once it runs, a database that is not available
/// and a query that failed only abort the switch of view that met them; a
/// column of a type that is not supported always ends the program.
pub open spec fn spec_is_fatal(error: DataError, phase: Phase) -> bool {
    phase == Phase::Startup || error == DataError::UnsupportedColumnType
}

/// The words that describe a failure.
pub open spec fn spec_message(error: DataError) -> Seq<char> {
    match error {
        DataError::DataSourceUnavailable => "the database is not available"@,
        DataError::QueryFailed => "a query failed"@,
        DataError::UnsupportedColumnType => "a column has a type that is not supported"@,
    }
}

impl DataError {
    /// Whether the failure ends the program when it happens in `phase`.
    pub fn is_fatal(&self, phase: Phase) -> (fatal: bool)
        ensures
            fatal == spec_is_fatal(*self, phase),
    {
        match phase {
            Phase::Startup => true,
            Phase::Running => match self {
                DataError::UnsupportedColumnType => true,
                DataError::DataSourceUnavailable => false,
                DataError::QueryFailed => false,
            },
        }
    }

    /// The words that describe the failure.
    pub fn message(&self) -> (text: &'static str)
        ensures
            text@ == spec_message(*self),
    {
        match self {
            DataError::DataSourceUnavailable => "the database is not available",
            DataError::QueryFailed => "a query failed",
            DataError::UnsupportedColumnType => "a column has a type that is not supported",
        }
    }
}

} // verus!
