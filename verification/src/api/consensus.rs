//! Query of the consensus endpoints.
use vstd::prelude::*;

verus! {

/// `?cycle_id=…`
pub struct CycleQuery {
    pub cycle_id: String,
}

} // verus!
