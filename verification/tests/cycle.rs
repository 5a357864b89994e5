use snop_cockpit_be::api::cycle::freeze_error_reply;
use snop_cockpit_be::api::sales_forecast::write_error_reply;
use snop_cockpit_be::module::consensus::pick_is_writable;
use snop_cockpit_be::module::cycle::{
    check_coverage, distinct_target_months, ensure_values, freeze_gate, parse_target_months,
    FreezeError, FreezeGate,
};
use snop_cockpit_be::module::sales_forecast::{require_open, WriteError};

fn strings(v: &[&str]) -> Vec<String> {
    v.iter().map(|s| s.to_string()).collect()
}

#[test]
fn freeze_gate_by_status() {
    assert!(matches!(freeze_gate(None), Err(FreezeError::NotFound)));
    assert!(matches!(freeze_gate(Some("closed")), Err(FreezeError::Closed)));
    assert!(matches!(freeze_gate(Some("frozen")), Ok(FreezeGate::AlreadyFrozen)));
    assert!(matches!(freeze_gate(Some("open")), Ok(FreezeGate::Proceed)));
}

#[test]
fn target_months_are_parsed_and_deduplicated() {
    let months = match parse_target_months(r#"["2026-08","2026-09","2026-08"]"#) {
        Ok(m) => m,
        Err(_) => panic!("valid target months were refused"),
    };
    assert_eq!(months, strings(&["2026-08", "2026-09"]));
    assert!(matches!(parse_target_months("[]"), Err(FreezeError::InvalidTargetMonths)));
    assert!(matches!(parse_target_months("not json"), Err(FreezeError::InvalidTargetMonths)));
    assert!(matches!(parse_target_months("[1,2]"), Err(FreezeError::InvalidTargetMonths)));
    assert!(matches!(distinct_target_months(None), Err(FreezeError::InvalidTargetMonths)));
}

#[test]
fn coverage_lists_missing_months_sorted() {
    let targets = strings(&["2026-10", "2026-08", "2026-09"]);
    assert!(matches!(check_coverage(&targets, &Vec::new()), Err(FreezeError::Empty)));
    match check_coverage(&targets, &strings(&["2026-09"])) {
        Err(FreezeError::Incomplete { missing_months }) => {
            assert_eq!(missing_months, strings(&["2026-08", "2026-10"]))
        }
        _ => panic!("incomplete consensus was accepted"),
    }
    assert!(check_coverage(&targets, &strings(&["2026-08", "2026-09", "2026-10", "2026-11"])).is_ok());
}

#[test]
fn freeze_refusals_are_answered() {
    let r = freeze_error_reply("2026-Q3", FreezeError::Closed);
    assert_eq!((r.status_code, r.message.as_str()), (409, "cycle 2026-Q3 is closed"));
    let r = freeze_error_reply("2026-Q3", FreezeError::NotFound);
    assert_eq!((r.status_code, r.message.as_str()), (404, "cycle not found"));
    let r = freeze_error_reply(
        "2026-Q3",
        FreezeError::Incomplete { missing_months: strings(&["2026-08", "2026-10"]) },
    );
    assert_eq!(
        r.message,
        "cycle 2026-Q3 consensus is incomplete; missing target months: 2026-08, 2026-10"
    );
    let r = freeze_error_reply("c", FreezeError::Empty);
    assert_eq!(r.message, "cycle c has no consensus rows");
    let r = freeze_error_reply("c", FreezeError::InvalidTargetMonths);
    assert_eq!(r.message, "cycle c has no valid target months");
    let r = freeze_error_reply("c", FreezeError::Db(sqlx::Error::RowNotFound));
    assert_eq!((r.status_code, r.message), (500, sqlx::Error::RowNotFound.to_string()));
}

#[test]
fn writes_need_an_open_cycle() {
    assert!(require_open(Some("open".to_owned())).is_ok());
    assert!(matches!(require_open(None), Err(WriteError::NoCycle)));
    match require_open(Some("frozen".to_owned())) {
        Err(WriteError::Locked(s)) => assert_eq!(s, "frozen"),
        _ => panic!("a frozen cycle accepted a write"),
    }
    let r = write_error_reply("c1", WriteError::Locked("frozen".to_owned()));
    assert_eq!((r.status_code, r.message.as_str()), (409, "cycle c1 is frozen, writes are closed"));
    let r = write_error_reply("c1", WriteError::NoCycle);
    assert_eq!(r.message, "cycle c1 does not exist");
}

#[test]
fn frozen_picks_are_not_overwritten() {
    assert!(!pick_is_writable(Some(true)));
    assert!(pick_is_writable(Some(false)));
    assert!(pick_is_writable(None));
}

#[test]
fn ensure_defaults() {
    assert_eq!(ensure_values("c1", None, None), ("c1", "[]"));
    assert_eq!(ensure_values("c1", Some("Q3"), Some("[\"2026-08\"]")), ("Q3", "[\"2026-08\"]"));
}
