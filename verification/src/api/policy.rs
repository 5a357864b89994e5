//! Queries and request checks of the stocking-policy endpoints.
use crate::api::{ApiResponse, STATUS_BAD_REQUEST};
use crate::module::stocking::{override_column_of, validation_outcome, FieldOverride, ValidatedOverrideValue};
use crate::text::{cat, owned, str_eq};
use vstd::prelude::*;

verus! {

/// `?scope=all` lists every cell; by default only stocked ones.
pub struct CellsQuery {
    pub scope: Option<String>,
}

impl CellsQuery {
    /// Whether only stocked cells are listed: unless the scope is `all`.
    pub fn stocked_only(&self) -> (r: bool)
        ensures
            r == !(self.scope matches Some(s) && s@ == "all"@),
    {
        match &self.scope {
            Some(s) => !str_eq(s.as_str(), "all"),
            None => true,
        }
    }
}

/// `?item=CODE` filters the change log to one item.
pub struct ItemFilter {
    pub item: Option<String>,
}

impl ItemFilter {
    /// The item filter; `""` means every item.
    pub fn item_or_all(&self) -> (r: String)
        ensures
            r@ == match self.item {
                Some(s) => s@,
                None => ""@,
            },
    {
        match &self.item {
            Some(s) => s.clone(),
            None => owned(""),
        }
    }
}

/// `?actor=…` names who cleared the overrides.
pub struct ClearOverrideQuery {
    pub actor: Option<String>,
}

impl ClearOverrideQuery {
    /// The actor recorded for a clear; `cockpit` when none was given.
    pub fn actor_or_default(&self) -> (r: String)
        ensures
            r@ == match self.actor {
                Some(s) => s@,
                None => "cockpit"@,
            },
    {
        match &self.actor {
            Some(s) => s.clone(),
            None => owned("cockpit"),
        }
    }
}

/// Checks an override request: a field that cannot be overridden, or a value that fails
/// validation, is answered with a 400; otherwise the column and the validated value come back.
pub fn override_request(form: &FieldOverride) -> (r: Result<(&'static str, ValidatedOverrideValue), ApiResponse>)
    ensures
        override_column_of(form.field@) is None ==> (r matches Err(e) && e.status_code
            == STATUS_BAD_REQUEST && e.message@ == "not an override field: "@ + form.field@),
        override_column_of(form.field@) is Some ==> match form.value {
            None => r matches Ok((c, v)) && Some(c@) == override_column_of(form.field@)
                && v is Clear,
            Some(input) => match r {
                Ok((c, v)) => Some(c@) == override_column_of(form.field@) && validation_outcome(
                    form.field@,
                    input,
                    Ok::<ValidatedOverrideValue, String>(v),
                ),
                Err(e) => e.status_code == STATUS_BAD_REQUEST && validation_outcome(
                    form.field@,
                    input,
                    Err::<ValidatedOverrideValue, String>(e.message),
                ),
            },
        },
{
    let column = match form.column() {
        Some(c) => c,
        None => {
            return Err(
                ApiResponse {
                    status_code: STATUS_BAD_REQUEST,
                    message: cat("not an override field: ", form.field.as_str()),
                },
            );
        },
    };
    match form.validated_value() {
        Ok(v) => Ok((column, v)),
        Err(message) => Err(ApiResponse { status_code: STATUS_BAD_REQUEST, message }),
    }
}

} // verus!
