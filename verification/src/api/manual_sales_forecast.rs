//! Query of the manual sales-forecast endpoint.
use crate::text::owned;
use vstd::prelude::*;

verus! {

/// `?cycle_id=…&salesperson=…`
pub struct LoadQuery {
    pub cycle_id: String,
    pub salesperson: Option<String>,
}

impl LoadQuery {
    /// The salesperson filter; `""` means every salesperson.
    pub fn salesperson_filter(&self) -> (r: String)
        ensures
            r@ == match self.salesperson {
                Some(s) => s@,
                None => ""@,
            },
    {
        match &self.salesperson {
            Some(s) => s.clone(),
            None => owned(""),
        }
    }
}

} // verus!
