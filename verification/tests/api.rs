use snop_cockpit_be::api::{error_class, DbErrorKind};
use snop_cockpit_be::api::policy::{override_request, CellsQuery, ClearOverrideQuery, ItemFilter};
use snop_cockpit_be::api::sales_forecast::LoadQuery;
use snop_cockpit_be::api::snapshot::AsOfQuery;
use snop_cockpit_be::api::{
    affected, db_error, db_error_reply, not_found_response, route_not_found, DbErrorClass, Reply,
};
use snop_cockpit_be::module::leadtime::{grain_or_any, is_known_leg};
use snop_cockpit_be::module::stocking::{FieldOverride, OverrideInput, ValidatedOverrideValue};
use snop_cockpit_be::text::join;
use snop_cockpit_be::AppState;

#[test]
fn envelopes() {
    let r = not_found_response("policy cell");
    assert_eq!((r.status_code, r.message.as_str()), (404, "policy cell not found"));
    match affected(0, "override", "override cleared") {
        Reply::Plain(p) => assert_eq!((p.status_code, p.message.as_str()), (404, "override not found")),
        Reply::Data(_) => panic!("no row matched"),
    }
    match affected(3, "override", "override cleared") {
        Reply::Data(d) => {
            assert_eq!((d.status_code, d.message.as_str(), d.data.as_str()), (200, "override cleared", "success"))
        }
        Reply::Plain(_) => panic!("rows matched"),
    }
    assert_eq!(route_not_found().message, "not found");
}

#[test]
fn database_errors() {
    let r = db_error_reply(DbErrorClass::UniqueViolation, "dup".to_owned());
    assert_eq!((r.status_code, r.message.as_str()), (409, "resource already exists"));
    let r = db_error_reply(DbErrorClass::ForeignKeyViolation, "fk".to_owned());
    assert_eq!((r.status_code, r.message.as_str()), (400, "referenced resource does not exist"));
    let r = db_error_reply(DbErrorClass::Other, "boom".to_owned());
    assert_eq!((r.status_code, r.message.as_str()), (500, "boom"));
    let r = db_error(sqlx::Error::RowNotFound);
    assert_eq!(r.status_code, 500);
    assert_eq!(r.message, sqlx::Error::RowNotFound.to_string());
}

#[test]
fn query_defaults() {
    assert!(CellsQuery { scope: None }.stocked_only());
    assert!(!CellsQuery { scope: Some("all".to_owned()) }.stocked_only());
    assert!(CellsQuery { scope: Some("stocked".to_owned()) }.stocked_only());
    assert_eq!(ItemFilter { item: None }.item_or_all(), "");
    assert_eq!(ClearOverrideQuery { actor: None }.actor_or_default(), "cockpit");
    assert_eq!(ClearOverrideQuery { actor: Some("pm".to_owned()) }.actor_or_default(), "pm");
    assert_eq!(LoadQuery { cycle_id: "c".to_owned(), salesperson: None }.salesperson_filter(), "");
    assert_eq!(AsOfQuery { as_of: Some("2026-01-01".to_owned()) }.as_of_or_empty(), "2026-01-01");
}

#[test]
fn override_requests() {
    let bad = FieldOverride { field: "colour".to_owned(), value: None, actor: None };
    match override_request(&bad) {
        Err(e) => assert_eq!((e.status_code, e.message.as_str()), (400, "not an override field: colour")),
        Ok(_) => panic!("unknown field accepted"),
    }
    let ok = FieldOverride {
        field: "order_type".to_owned(),
        value: Some(OverrideInput::Text("BUY".to_owned())),
        actor: None,
    };
    match override_request(&ok) {
        Ok((c, ValidatedOverrideValue::Text(t))) => assert_eq!((c, t.as_str()), ("ot_ovr", "buy")),
        _ => panic!("valid order type refused"),
    }
}

#[test]
fn lead_time_legs() {
    assert!(is_known_leg("customs"));
    assert!(!is_known_leg("teleport"));
    assert_eq!(grain_or_any(None), "");
    assert_eq!(grain_or_any(Some("PIG")), "PIG");
}

#[test]
fn joining_and_state() {
    assert_eq!(join(&vec!["a".to_owned(), "b".to_owned()], ", "), "a, b");
    assert_eq!(join(&Vec::new(), ", "), "");
    let s = AppState::new(7u8);
    assert_eq!(*s.db_pool(), 7);
}

#[derive(Debug)]
struct FakeDbError {
    kind: sqlx::error::ErrorKind,
}

impl std::fmt::Display for FakeDbError {
    fn fmt(&self, f: &mut std::fmt::Formatter<'_>) -> std::fmt::Result {
        f.write_str("fake database error")
    }
}

impl std::error::Error for FakeDbError {}

impl sqlx::error::DatabaseError for FakeDbError {
    fn message(&self) -> &str {
        "fake database error"
    }

    fn as_error(&self) -> &(dyn std::error::Error + Send + Sync + 'static) {
        self
    }

    fn as_error_mut(&mut self) -> &mut (dyn std::error::Error + Send + Sync + 'static) {
        self
    }

    fn into_error(self: Box<Self>) -> Box<dyn std::error::Error + Send + Sync + 'static> {
        self
    }

    fn kind(&self) -> sqlx::error::ErrorKind {
        match self.kind {
            sqlx::error::ErrorKind::UniqueViolation => sqlx::error::ErrorKind::UniqueViolation,
            sqlx::error::ErrorKind::ForeignKeyViolation => sqlx::error::ErrorKind::ForeignKeyViolation,
            _ => sqlx::error::ErrorKind::Other,
        }
    }
}

fn database_error(kind: sqlx::error::ErrorKind) -> sqlx::Error {
    sqlx::Error::Database(Box::new(FakeDbError { kind }))
}

#[test]
fn constraint_violations_are_classified() {
    let r = db_error(database_error(sqlx::error::ErrorKind::UniqueViolation));
    assert_eq!((r.status_code, r.message.as_str()), (409, "resource already exists"));
    let r = db_error(database_error(sqlx::error::ErrorKind::ForeignKeyViolation));
    assert_eq!((r.status_code, r.message.as_str()), (400, "referenced resource does not exist"));
    let r = db_error(database_error(sqlx::error::ErrorKind::CheckViolation));
    assert_eq!(r.status_code, 500);
}

#[test]
fn health_and_leg_replies() {
    let r = snop_cockpit_be::api::database_unavailable(sqlx::Error::PoolTimedOut);
    assert_eq!(r.status_code, 503);
    assert_eq!(
        r.message,
        format!("database unavailable: {}", sqlx::Error::PoolTimedOut.to_string())
    );
    let r = snop_cockpit_be::module::leadtime::unknown_leg("teleport");
    assert_eq!((r.status_code, r.message.as_str()), (400, "unknown lead-time leg: teleport"));
}

#[test]
fn error_kinds_fold_into_classes() {
    assert_eq!(error_class(Some(DbErrorKind::UniqueViolation)), DbErrorClass::UniqueViolation);
    assert_eq!(error_class(Some(DbErrorKind::ForeignKeyViolation)), DbErrorClass::ForeignKeyViolation);
    assert_eq!(error_class(Some(DbErrorKind::NotNullViolation)), DbErrorClass::Other);
    assert_eq!(error_class(Some(DbErrorKind::CheckViolation)), DbErrorClass::Other);
    assert_eq!(error_class(None), DbErrorClass::Other);
    let r = db_error(database_error(sqlx::error::ErrorKind::NotNullViolation));
    assert_eq!((r.status_code, r.message.as_str()), (500, "error returned from database: fake database error"));
}

#[test]
fn success_replies() {
    let r = snop_cockpit_be::api::cycle::freeze_reply("2026-Q3", 12);
    assert_eq!((r.status_code, r.message.as_str()), (200, "cycle frozen"));
    assert_eq!((r.data.frozen.as_str(), r.data.locked), ("2026-Q3", 12));
    let r = snop_cockpit_be::api::sales_forecast::saved_reply("consensus picks saved", 3);
    assert_eq!((r.status_code, r.message.as_str(), r.data.saved), (200, "consensus picks saved", 3));
}
