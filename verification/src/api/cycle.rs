//! Replies of the cycle endpoints.
use crate::api::{
    ApiResponseWithData, STATUS_OK, conflict, db_error, db_error_message, db_error_status, not_found_response, ApiResponse,
    STATUS_CONFLICT, STATUS_NOT_FOUND,
};
use crate::module::cycle::FreezeError;
use crate::text::{cat3, join, joined, owned, string_views};
use vstd::prelude::*;

verus! {

/// The reply to a refused freeze: 404 for a missing cycle, 409 naming the cycle for a closed
/// one, one without consensus rows, one whose consensus misses target months (listed, comma
/// separated) or one without valid target months; a database error gets its envelope.
pub fn freeze_error_reply(cycle_id: &str, err: FreezeError) -> (r: ApiResponse)
    ensures
        err is NotFound ==> r.status_code == STATUS_NOT_FOUND && r.message@ == "cycle not found"@,
        err is Closed ==> r.status_code == STATUS_CONFLICT && r.message@ == "cycle "@ + cycle_id@
            + " is closed"@,
        err is Empty ==> r.status_code == STATUS_CONFLICT && r.message@ == "cycle "@ + cycle_id@
            + " has no consensus rows"@,
        err matches FreezeError::Incomplete { missing_months } ==> r.status_code == STATUS_CONFLICT
            && r.message@ == "cycle "@ + cycle_id@
            + " consensus is incomplete; missing target months: "@ + joined(
            string_views(missing_months@),
            ", "@,
        ),
        err is InvalidTargetMonths ==> r.status_code == STATUS_CONFLICT && r.message@ == "cycle "@
            + cycle_id@ + " has no valid target months"@,
        err matches FreezeError::Db(d) ==> r.status_code == db_error_status(d) && r.message@
            == db_error_message(d),
{
    match err {
        FreezeError::NotFound => {
            proof {
                reveal_strlit("cycle");
                reveal_strlit(" not found");
                reveal_strlit("cycle not found");
                assert("cycle"@ + " not found"@ =~= "cycle not found"@);
            }
            not_found_response("cycle")
        },
        FreezeError::Closed => conflict(cat3("cycle ", cycle_id, " is closed")),
        FreezeError::Empty => conflict(cat3("cycle ", cycle_id, " has no consensus rows")),
        FreezeError::Incomplete { missing_months } => {
            let mut m = cat3("cycle ", cycle_id, " consensus is incomplete; missing target months: ");
            let list = join(&missing_months, ", ");
            m.append(list.as_str());
            conflict(m)
        },
        FreezeError::InvalidTargetMonths => conflict(
            cat3("cycle ", cycle_id, " has no valid target months"),
        ),
        FreezeError::Db(e) => db_error(e),
    }
}


/// What a successful freeze reports: the cycle, and how many consensus rows it locked.
pub struct FreezeSummary {
    pub frozen: String,
    pub locked: u64,
}

/// The reply to a successful freeze.
pub fn freeze_reply(cycle_id: &str, locked: u64) -> (r: ApiResponseWithData<FreezeSummary>)
    ensures
        r.status_code == STATUS_OK,
        r.message@ == "cycle frozen"@,
        r.data.frozen@ == cycle_id@,
        r.data.locked == locked,
{
    ApiResponseWithData {
        status_code: STATUS_OK,
        message: owned("cycle frozen"),
        data: FreezeSummary { frozen: owned(cycle_id), locked },
    }
}

} // verus!
