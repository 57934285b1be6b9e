//! Setting up the store of contacts, groups and templates.

use vstd::prelude::*;
use vstd::string::*;

verus! {

/// Why the store could not be set up.
#[derive(Debug)]
pub enum RepositoryError {
    /// The store was set up before.
    AlreadyInitialized,
    /// The store could not be opened; holds the message.
    ConnectionError(String),
}

/// The failure to open the store, with the reason the store gave.
pub fn connect_failure(reason: &str) -> (error: RepositoryError)
    ensures
        error matches RepositoryError::ConnectionError(m) && m@ == "Cold not connect to db. Reason "@
            + reason@,
{
    RepositoryError::ConnectionError(
        String::from_str("Cold not connect to db. Reason ").concat(reason),
    )
}

/// The failure to select the database, with the reason the store gave.
pub fn select_failure(reason: &str) -> (error: RepositoryError)
    ensures
        error matches RepositoryError::ConnectionError(m) && m@ == "Could not use sms db "@
            + reason@,
{
    RepositoryError::ConnectionError(String::from_str("Could not use sms db ").concat(reason))
}

} // verus!
