//! Query of the snapshot endpoint.
use crate::text::owned;
use vstd::prelude::*;

verus! {

/// `?asOf=…`
pub struct AsOfQuery {
    pub as_of: Option<String>,
}

impl AsOfQuery {
    /// The requested date; `""` when none was given, which matches no snapshot.
    pub fn as_of_or_empty(&self) -> (r: String)
        ensures
            r@ == match self.as_of {
                Some(s) => s@,
                None => ""@,
            },
    {
        match &self.as_of {
            Some(s) => s.clone(),
            None => owned(""),
        }
    }
}

} // verus!
