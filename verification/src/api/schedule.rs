//! Request checks and replies of the job-schedule endpoints.
use crate::api::{ApiResponse, STATUS_BAD_REQUEST, STATUS_CONFLICT};
use crate::text::{owned, trim, trim_ws};
use vstd::prelude::*;
use vstd::string::*;
use vstd::utf8::encode_utf8;

verus! {

/// The longest owner name accepted, in bytes.
pub const OWNER_MAX_BYTES: usize = 128;

/// The most characters of a failure report that are kept.
pub const ERROR_MAX_CHARS: usize = 4000;

/// The owner name, trimmed, when it holds 1 to 128 bytes.
pub fn checked_owner(owner: &str) -> (r: Option<&str>)
    ensures
        r matches Some(o) ==> o@ == trim_ws(owner@),
        r is Some <==> (trim_ws(owner@).len() > 0 && encode_utf8(trim_ws(owner@)).len()
            <= OWNER_MAX_BYTES as nat),
        encode_utf8(trim_ws(owner@)).len() > 128 ==> r is None,
        trim_ws(owner@).len() > 0 && encode_utf8(trim_ws(owner@)).len() <= 128 ==> r is Some,
{
    let t = trim(owner);
    let bytes = t.as_bytes().len();
    if t.is_empty() || bytes > OWNER_MAX_BYTES {
        None
    } else {
        Some(t)
    }
}

/// The reply to a malformed request.
pub fn bad_request(message: String) -> (r: ApiResponse)
    ensures
        r.status_code == STATUS_BAD_REQUEST,
        r.message == message,
{
    ApiResponse { status_code: STATUS_BAD_REQUEST, message }
}

/// The reply to an owner name that is empty or too long.
pub fn invalid_owner() -> (r: ApiResponse)
    ensures
        r.status_code == STATUS_BAD_REQUEST,
        r.message@ == "owner must contain 1 to 128 characters"@,
{
    bad_request(owned("owner must contain 1 to 128 characters"))
}

/// The reply when the caller does not hold the running job's lease.
pub fn lost_lease() -> (r: ApiResponse)
    ensures
        r.status_code == STATUS_CONFLICT,
        r.message@ == "job lease is missing, expired, or owned by another worker"@,
{
    ApiResponse {
        status_code: STATUS_CONFLICT,
        message: owned("job lease is missing, expired, or owned by another worker"),
    }
}

/// A reschedule may set the calendar cadence to 1 to 120 months, or leave it unchanged.
pub fn interval_months_allowed(interval_months: Option<u16>) -> (r: bool)
    ensures
        r == !(interval_months matches Some(m) && (m == 0 || m > 120)),
{
    match interval_months {
        Some(m) => 1 <= m && m <= 120,
        None => true,
    }
}

/// The reply to a cadence outside 1 to 120 months.
pub fn invalid_interval() -> (r: ApiResponse)
    ensures
        r.status_code == STATUS_BAD_REQUEST,
        r.message@ == "interval_months must be between 1 and 120"@,
{
    bad_request(owned("interval_months must be between 1 and 120"))
}

pub open spec fn failure_text_spec(error: Option<Seq<char>>) -> Seq<char> {
    let e = match error {
        Some(e) => e,
        None => "stocking-policy refresh failed"@,
    };
    if e.len() <= ERROR_MAX_CHARS {
        e
    } else {
        e.take(ERROR_MAX_CHARS as int)
    }
}

/// A failure report is kept whole up to 4000 characters; a longer one keeps its first 4000. With
/// no report, the default text is kept.
pub proof fn law_failure_text_keeps_the_first_4000_characters(e: Seq<char>)
    ensures
        e.len() <= 4000 ==> failure_text_spec(Some(e)) == e,
        e.len() > 4000 ==> failure_text_spec(Some(e)).len() == 4000,
        failure_text_spec(Some(e)) == e.take(failure_text_spec(Some(e)).len() as int),
        failure_text_spec(None) == "stocking-policy refresh failed"@,
{
    reveal_strlit("stocking-policy refresh failed");
    assert(e.take(e.len() as int) =~= e);
}

/// The failure text that is recorded: the report, or a default one, cut to 4000 characters.
pub fn failure_text(error: Option<&str>) -> (r: String)
    ensures
        r@ == failure_text_spec(
            match error {
                Some(e) => Some(e@),
                None => None,
            },
        ),
{
    let e = match error {
        Some(e) => e,
        None => "stocking-policy refresh failed",
    };
    let n = e.unicode_len();
    if n <= ERROR_MAX_CHARS {
        owned(e)
    } else {
        let cut = e.substring_char(0, ERROR_MAX_CHARS);
        assert(e@.subrange(0, ERROR_MAX_CHARS as int) =~= e@.take(ERROR_MAX_CHARS as int));
        owned(cut)
    }
}

/// The message of a claim reply.
pub fn claim_message(claimed: bool) -> (r: String)
    ensures
        claimed ==> r@ == "job claimed"@,
        !claimed ==> r@ == "job is not due or already leased"@,
{
    if claimed {
        owned("job claimed")
    } else {
        owned("job is not due or already leased")
    }
}

} // verus!
