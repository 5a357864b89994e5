//! Rep sales-forecast writes: accepted only while the cycle is open.
use crate::text::str_eq;
use vstd::prelude::*;

verus! {

/// Why a write to a cycle's demand tables was refused before it touched them.
pub enum WriteError {
    /// The cycle does not exist.
    NoCycle,
    /// The cycle is frozen or closed; its status is given.
    Locked(String),
    Db(sqlx::Error),
}

/// Admits a write only to an existing, open cycle, given the cycle's stored status.
pub fn require_open(status: Option<String>) -> (r: Result<(), WriteError>)
    ensures
        status is None ==> r matches Err(WriteError::NoCycle),
        status matches Some(s) ==> (s@ == "open"@ ==> r is Ok),
        status matches Some(s) ==> (s@ != "open"@ ==> (r matches Err(WriteError::Locked(t))
            && t@ == s@)),
{
    match status {
        None => Err(WriteError::NoCycle),
        Some(s) => {
            if str_eq(s.as_str(), "open") {
                Ok(())
            } else {
                Err(WriteError::Locked(s))
            }
        },
    }
}

} // verus!
