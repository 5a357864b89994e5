//! DSP consensus picks: a frozen pick is plan-of-record and is never overwritten.
use vstd::prelude::*;

verus! {

/// Whether a pick is written, given whether its stored row (if any) is frozen: a pick onto a
/// frozen row is skipped, every other pick is written.
pub fn pick_is_writable(stored_frozen: Option<bool>) -> (r: bool)
    ensures
        r == !(stored_frozen == Some(true)),
{
    match stored_frozen {
        Some(frozen) => !frozen,
        None => true,
    }
}

} // verus!
