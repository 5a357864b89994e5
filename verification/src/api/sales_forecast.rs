//! Query and refusals of the sales-forecast and consensus write endpoints.
use crate::api::{
    ApiResponseWithData, STATUS_OK, conflict, db_error, db_error_message, db_error_status, ApiResponse, STATUS_CONFLICT,
};
use crate::module::sales_forecast::WriteError;
use crate::text::{cat3, owned};
use vstd::prelude::*;

verus! {

/// `?cycle_id=…&salesperson=…`
pub struct LoadQuery {
    pub cycle_id: String,
    pub salesperson: Option<String>,
}

impl LoadQuery {
    /// The salesperson filter; `""` means every salesperson.
    pub fn salesperson_filter(&self) -> (r: String)
        ensures
            r@ == match self.salesperson {
                Some(s) => s@,
                None => ""@,
            },
    {
        match &self.salesperson {
            Some(s) => s.clone(),
            None => owned(""),
        }
    }
}

/// The reply to a refused write: 409 naming the missing or locked cycle, or the database
/// error's envelope.
pub fn write_error_reply(cycle_id: &str, err: WriteError) -> (r: ApiResponse)
    ensures
        err is NoCycle ==> r.status_code == STATUS_CONFLICT && r.message@ == "cycle "@ + cycle_id@
            + " does not exist"@,
        err matches WriteError::Locked(s) ==> r.status_code == STATUS_CONFLICT && r.message@
            == "cycle "@ + cycle_id@ + " is "@ + s@ + ", writes are closed"@,
        err matches WriteError::Db(d) ==> r.status_code == db_error_status(d) && r.message@
            == db_error_message(d),
{
    match err {
        WriteError::NoCycle => conflict(cat3("cycle ", cycle_id, " does not exist")),
        WriteError::Locked(s) => {
            let mut m = cat3("cycle ", cycle_id, " is ");
            m.append(s.as_str());
            m.append(", writes are closed");
            conflict(m)
        },
        WriteError::Db(e) => db_error(e),
    }
}


/// What a successful batch save reports: the number of rows written.
pub struct SavedCount {
    pub saved: u64,
}

/// The reply to a successful batch save, with its message.
pub fn saved_reply(message: &str, saved: u64) -> (r: ApiResponseWithData<SavedCount>)
    ensures
        r.status_code == STATUS_OK,
        r.message@ == message@,
        r.data.saved == saved,
{
    ApiResponseWithData { status_code: STATUS_OK, message: owned(message), data: SavedCount { saved } }
}

} // verus!
