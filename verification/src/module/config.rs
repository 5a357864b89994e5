//! Key/value configuration.
use vstd::prelude::*;

verus! {

/// A request to set one configuration key.
pub struct SetConfig {
    pub value: String,
    pub actor: Option<String>,
}

} // verus!
