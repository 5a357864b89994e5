//! The response envelope shared by every endpoint, and the replies that several endpoints give.
use crate::text::{cat, owned};
use vstd::prelude::*;

pub mod consensus;
pub mod cycle;
pub mod manual_sales_forecast;
pub mod policy;
pub mod sales_forecast;
pub mod schedule;
pub mod snapshot;

verus! {

pub const STATUS_OK: u16 = 200;

pub const STATUS_BAD_REQUEST: u16 = 400;

pub const STATUS_NOT_FOUND: u16 = 404;

pub const STATUS_CONFLICT: u16 = 409;

pub const STATUS_INTERNAL_SERVER_ERROR: u16 = 500;

pub const STATUS_SERVICE_UNAVAILABLE: u16 = 503;

/// The standard envelope without a payload.
pub struct ApiResponse {
    pub status_code: u16,
    pub message: String,
}

/// The standard envelope with a payload.
pub struct ApiResponseWithData<T> {
    pub status_code: u16,
    pub message: String,
    pub data: T,
}

/// A reply: either the plain envelope or the envelope with a payload.
pub enum Reply<T> {
    Plain(ApiResponse),
    Data(ApiResponseWithData<T>),
}

impl<T> Reply<T> {
    pub open spec fn status(&self) -> u16 {
        match self {
            Reply::Plain(r) => r.status_code,
            Reply::Data(r) => r.status_code,
        }
    }

    /// The HTTP status the reply is sent with.
    pub fn status_code(&self) -> (s: u16)
        ensures
            s == self.status(),
    {
        match self {
            Reply::Plain(r) => r.status_code,
            Reply::Data(r) => r.status_code,
        }
    }
}

/// A plain envelope.
pub fn plain(status_code: u16, message: String) -> (r: ApiResponse)
    ensures
        r.status_code == status_code,
        r.message == message,
{
    ApiResponse { status_code, message }
}

/// An envelope around a payload.
pub fn with_data<T>(status_code: u16, message: String, data: T) -> (r: ApiResponseWithData<T>)
    ensures
        r.status_code == status_code,
        r.message == message,
        r.data == data,
{
    ApiResponseWithData { status_code, message, data }
}

/// The 200 envelope with the usual `success` message.
pub fn success<T>(data: T) -> (r: ApiResponseWithData<T>)
    ensures
        r.status_code == STATUS_OK,
        r.message@ == "success"@,
        r.data == data,
{
    ApiResponseWithData { status_code: STATUS_OK, message: owned("success"), data }
}

/// A 404 naming what was not found, e.g. `policy cell not found`.
pub fn not_found_response(entity: &str) -> (r: ApiResponse)
    ensures
        r.status_code == STATUS_NOT_FOUND,
        r.message@ == entity@ + " not found"@,
{
    ApiResponse { status_code: STATUS_NOT_FOUND, message: cat(entity, " not found") }
}

/// The reply to an UPDATE or DELETE: a 404 when no row matched, otherwise a 200 carrying
/// `success` under `message`.
pub fn affected(rows: u64, entity: &str, message: &str) -> (r: Reply<String>)
    ensures
        rows == 0 ==> (r matches Reply::Plain(p) && p.status_code == STATUS_NOT_FOUND && p.message@
            == entity@ + " not found"@),
        rows != 0 ==> (r matches Reply::Data(d) && d.status_code == STATUS_OK && d.message@
            == message@ && d.data@ == "success"@),
{
    if rows == 0 {
        Reply::Plain(not_found_response(entity))
    } else {
        Reply::Data(
            ApiResponseWithData {
                status_code: STATUS_OK,
                message: owned(message),
                data: owned("success"),
            },
        )
    }
}

/// How a database error is answered.
#[derive(PartialEq, Eq, Structural, Debug, Clone, Copy)]
pub enum DbErrorClass {
    UniqueViolation,
    ForeignKeyViolation,
    Other,
}

/// The envelope for a database error: a unique-key clash is a 409, a missing referenced row a
/// 400, anything else a 500 that carries the error's own text.
pub fn db_error_reply(class: DbErrorClass, detail: String) -> (r: ApiResponse)
    ensures
        class == DbErrorClass::UniqueViolation ==> r.status_code == STATUS_CONFLICT && r.message@
            == "resource already exists"@,
        class == DbErrorClass::ForeignKeyViolation ==> r.status_code == STATUS_BAD_REQUEST
            && r.message@ == "referenced resource does not exist"@,
        class == DbErrorClass::Other ==> r.status_code == STATUS_INTERNAL_SERVER_ERROR && r.message
            == detail,
{
    match class {
        DbErrorClass::UniqueViolation => ApiResponse {
            status_code: STATUS_CONFLICT,
            message: owned("resource already exists"),
        },
        DbErrorClass::ForeignKeyViolation => ApiResponse {
            status_code: STATUS_BAD_REQUEST,
            message: owned("referenced resource does not exist"),
        },
        DbErrorClass::Other => ApiResponse {
            status_code: STATUS_INTERNAL_SERVER_ERROR,
            message: detail,
        },
    }
}

#[verifier::external_type_specification]
#[verifier::external_body]
pub struct ExSqlxError(sqlx::Error);

/// The kinds of error a database reports, as `sqlx::error::ErrorKind` names them.
#[derive(PartialEq, Eq, Structural, Debug, Clone, Copy)]
pub enum DbErrorKind {
    UniqueViolation,
    ForeignKeyViolation,
    NotNullViolation,
    CheckViolation,
    Other,
}

/// The kind of a query error: `DatabaseError::kind` for an error the database reported,
/// `None` for any other error (pool, I/O, decoding, no row, ...).
pub uninterp spec fn database_error_kind(e: sqlx::Error) -> Option<DbErrorKind>;

/// The `Display` text of a query error.
pub uninterp spec fn db_error_display(e: sqlx::Error) -> Seq<char>;

/// `DatabaseError::kind` of a `sqlx::Error::Database`, one variant each (the kind enum is
/// non-exhaustive: a kind added later reads as `Other`, as sqlx's own unmapped kind); `None`
/// for every other `sqlx::Error` variant.
#[verifier::external_body]
fn query_error_kind(e: &sqlx::Error) -> (k: Option<DbErrorKind>)
    ensures
        k == database_error_kind(*e),
{
    match e {
        sqlx::Error::Database(db) => Some(
            match db.kind() {
                sqlx::error::ErrorKind::UniqueViolation => DbErrorKind::UniqueViolation,
                sqlx::error::ErrorKind::ForeignKeyViolation => DbErrorKind::ForeignKeyViolation,
                sqlx::error::ErrorKind::NotNullViolation => DbErrorKind::NotNullViolation,
                sqlx::error::ErrorKind::CheckViolation => DbErrorKind::CheckViolation,
                sqlx::error::ErrorKind::Other => DbErrorKind::Other,
                _ => DbErrorKind::Other,
            },
        ),
        _ => None,
    }
}

/// `sqlx::Error`'s `Display` text, through `ToString`.
#[verifier::external_body]
fn db_error_text(e: &sqlx::Error) -> (s: String)
    ensures
        s@ == db_error_display(*e),
{
    e.to_string()
}

/// How an error kind is answered: unique-key and foreign-key violations have their own
/// replies; every other database error, and every error that is not the database's, is a 500.
pub open spec fn class_of(kind: Option<DbErrorKind>) -> DbErrorClass {
    match kind {
        Some(DbErrorKind::UniqueViolation) => DbErrorClass::UniqueViolation,
        Some(DbErrorKind::ForeignKeyViolation) => DbErrorClass::ForeignKeyViolation,
        _ => DbErrorClass::Other,
    }
}

/// The class of a query error.
pub fn error_class(kind: Option<DbErrorKind>) -> (c: DbErrorClass)
    ensures
        c == class_of(kind),
{
    match kind {
        Some(DbErrorKind::UniqueViolation) => DbErrorClass::UniqueViolation,
        Some(DbErrorKind::ForeignKeyViolation) => DbErrorClass::ForeignKeyViolation,
        _ => DbErrorClass::Other,
    }
}

/// The status of the reply to a query error.
pub open spec fn db_error_status(e: sqlx::Error) -> u16 {
    match class_of(database_error_kind(e)) {
        DbErrorClass::UniqueViolation => STATUS_CONFLICT,
        DbErrorClass::ForeignKeyViolation => STATUS_BAD_REQUEST,
        DbErrorClass::Other => STATUS_INTERNAL_SERVER_ERROR,
    }
}

/// The message of the reply to a query error.
pub open spec fn db_error_message(e: sqlx::Error) -> Seq<char> {
    match class_of(database_error_kind(e)) {
        DbErrorClass::UniqueViolation => "resource already exists"@,
        DbErrorClass::ForeignKeyViolation => "referenced resource does not exist"@,
        DbErrorClass::Other => db_error_display(e),
    }
}

/// A failed query is answered by what went wrong: a unique-key clash with 409 and "resource
/// already exists", a missing referenced row with 400 and "referenced resource does not exist",
/// and every other database error, or an error that is not the database's, with 500 and the
/// error's own text.
pub proof fn law_query_errors_are_answered_by_kind(e: sqlx::Error)
    ensures
        database_error_kind(e) == Some(DbErrorKind::UniqueViolation) ==> db_error_status(e) == 409
            && db_error_message(e) == "resource already exists"@,
        database_error_kind(e) == Some(DbErrorKind::ForeignKeyViolation) ==> db_error_status(e)
            == 400 && db_error_message(e) == "referenced resource does not exist"@,
        database_error_kind(e) != Some(DbErrorKind::UniqueViolation) && database_error_kind(e)
            != Some(DbErrorKind::ForeignKeyViolation) ==> db_error_status(e) == 500
            && db_error_message(e) == db_error_display(e),
{
}

/// The envelope for a failed query: 409 for a unique-key clash, 400 for a missing referenced
/// row, otherwise 500 with the error's text.
pub fn db_error(e: sqlx::Error) -> (r: ApiResponse)
    ensures
        r.status_code == db_error_status(e),
        r.message@ == db_error_message(e),
{
    let class = error_class(query_error_kind(&e));
    let detail = db_error_text(&e);
    db_error_reply(class, detail)
}

/// A 409 with the given message.
pub fn conflict(message: String) -> (r: ApiResponse)
    ensures
        r.status_code == STATUS_CONFLICT,
        r.message == message,
{
    ApiResponse { status_code: STATUS_CONFLICT, message }
}


/// The reply to a request for an unknown route.
pub fn route_not_found() -> (r: ApiResponse)
    ensures
        r.status_code == STATUS_NOT_FOUND,
        r.message@ == "not found"@,
{
    ApiResponse { status_code: STATUS_NOT_FOUND, message: owned("not found") }
}


/// The reply of a health check whose probe query failed: 503 with the error's text.
pub fn database_unavailable(e: sqlx::Error) -> (r: ApiResponse)
    ensures
        r.status_code == STATUS_SERVICE_UNAVAILABLE,
        r.message@ == "database unavailable: "@ + db_error_display(e),
{
    let detail = db_error_text(&e);
    let message = cat("database unavailable: ", detail.as_str());
    ApiResponse { status_code: STATUS_SERVICE_UNAVAILABLE, message }
}

} // verus!
