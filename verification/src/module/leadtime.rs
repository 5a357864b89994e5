//! PM-maintained lead-time defaults.
use crate::api::{ApiResponse, STATUS_BAD_REQUEST};
use crate::text::{cat, str_eq};
use vstd::prelude::*;

verus! {

/// The five legs a lead-time default may be set against.
pub open spec fn is_known_leg_spec(leg: Seq<char>) -> bool {
    leg == "supplier_dispatch"@ || leg == "ocean_air_transit"@ || leg == "customs"@ || leg
        == "bpom_permit"@ || leg == "qc_release"@
}

/// Whether `leg` is one of the five known legs; any other is refused to keep the store clean.
pub fn is_known_leg(leg: &str) -> (r: bool)
    ensures
        r == is_known_leg_spec(leg@),
        leg@ == "supplier_dispatch"@ || leg@ == "ocean_air_transit"@ || leg@ == "customs"@ || leg@
            == "bpom_permit"@ || leg@ == "qc_release"@ ==> r,
{
    str_eq(leg, "supplier_dispatch") || str_eq(leg, "ocean_air_transit") || str_eq(leg, "customs")
        || str_eq(leg, "bpom_permit") || str_eq(leg, "qc_release")
}

/// Every leg of the five is accepted, and a leg is accepted only when it is one of them.
pub proof fn law_the_five_legs_are_known(leg: Seq<char>)
    ensures
        is_known_leg_spec("supplier_dispatch"@),
        is_known_leg_spec("ocean_air_transit"@),
        is_known_leg_spec("customs"@),
        is_known_leg_spec("bpom_permit"@),
        is_known_leg_spec("qc_release"@),
        is_known_leg_spec(leg) ==> leg == "supplier_dispatch"@ || leg == "ocean_air_transit"@ || leg
            == "customs"@ || leg == "bpom_permit"@ || leg == "qc_release"@,
{
}

/// A grain key of a default: the given value, or `""` (any) when absent.
pub fn grain_or_any(key: Option<&str>) -> (r: &str)
    ensures
        r@ == match key {
            Some(k) => k@,
            None => ""@,
        },
{
    match key {
        Some(k) => k,
        None => "",
    }
}


/// The reply to an unknown leg.
pub fn unknown_leg(leg: &str) -> (r: ApiResponse)
    ensures
        r.status_code == STATUS_BAD_REQUEST,
        r.message@ == "unknown lead-time leg: "@ + leg@,
{
    ApiResponse { status_code: STATUS_BAD_REQUEST, message: cat("unknown lead-time leg: ", leg) }
}

} // verus!
