//! Materialized snapshots, stored as opaque JSON text.
use vstd::prelude::*;

verus! {

/// A request to store the sell-out snapshot of a date.
pub struct PutSnapshot {
    pub as_of: String,
    pub payload: String,
}

/// A request to store a keyed feed snapshot.
pub struct PutFeedSnapshot {
    pub payload: String,
}

} // verus!
