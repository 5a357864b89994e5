use chrono::{TimeZone, Utc};
use snop_cockpit_be::api::schedule::{
    checked_owner, claim_message, failure_text, interval_months_allowed, invalid_owner, lost_lease,
};
use snop_cockpit_be::module::schedule::{
    claim, clock_is_valid, complete, fail, floor_div, update, JobSchedule, ScheduleError,
    UpdateSchedule, HOUR_MICROS, LEASE_MICROS, RETRY_MICROS,
};

fn at(y: i32, mo: u32, d: u32, h: u32) -> i64 {
    Utc.with_ymd_and_hms(y, mo, d, h, 0, 0).unwrap().timestamp_micros()
}

fn job(next_run_at: i64, interval_hours: Option<u16>) -> JobSchedule {
    JobSchedule {
        job_key: "stocking_policy_refresh".to_owned(),
        enabled: true,
        interval_months: 6,
        interval_hours,
        next_run_at,
        retry_after_at: None,
        status: "idle".to_owned(),
        last_run_started_at: None,
        last_run_finished_at: None,
        last_success_at: None,
        lease_owner: None,
        lease_expires_at: None,
        last_error: None,
        row_version: 1,
        updated_by: None,
        updated_at: next_run_at,
    }
}

#[test]
fn future_job_is_not_claimed() {
    let now = at(2025, 1, 1, 0);
    let r = claim(Some(job(at(2025, 1, 2, 17), Some(24))), "worker", now);
    assert!(!r.claimed);
    assert_eq!(r.schedule.unwrap().status, "idle");
}

#[test]
fn missing_job_is_not_claimed() {
    let r = claim(None, "worker", at(2025, 1, 1, 0));
    assert!(!r.claimed);
    assert!(r.schedule.is_none());
}

#[test]
fn due_job_is_leased_for_an_hour_and_excludes_others() {
    let now = at(2025, 1, 3, 0);
    let r = claim(Some(job(at(2025, 1, 2, 17), Some(24))), "worker-a", now);
    assert!(r.claimed);
    let s = r.schedule.unwrap();
    assert_eq!(s.status, "running");
    assert_eq!(s.lease_owner.as_deref(), Some("worker-a"));
    assert_eq!(s.lease_expires_at, Some(now + LEASE_MICROS));
    assert_eq!(s.row_version, 2);
    let again = claim(Some(s.clone_for_test()), "worker-b", now + LEASE_MICROS - 1);
    assert!(!again.claimed);
    let kept = again.schedule.unwrap();
    assert_eq!(kept.lease_owner.as_deref(), Some("worker-a"));
    assert_eq!(kept.row_version, 2);
    let after = claim(Some(s), "worker-b", now + LEASE_MICROS);
    assert!(after.claimed);
}

trait CloneForTest {
    fn clone_for_test(&self) -> Self;
}

impl CloneForTest for JobSchedule {
    fn clone_for_test(&self) -> Self {
        JobSchedule {
            job_key: self.job_key.clone(),
            enabled: self.enabled,
            interval_months: self.interval_months,
            interval_hours: self.interval_hours,
            next_run_at: self.next_run_at,
            retry_after_at: self.retry_after_at,
            status: self.status.clone(),
            last_run_started_at: self.last_run_started_at,
            last_run_finished_at: self.last_run_finished_at,
            last_success_at: self.last_success_at,
            lease_owner: self.lease_owner.clone(),
            lease_expires_at: self.lease_expires_at,
            last_error: self.last_error.clone(),
            row_version: self.row_version,
            updated_by: self.updated_by.clone(),
            updated_at: self.updated_at,
        }
    }
}

#[test]
fn hourly_completion_moves_to_the_next_slot_after_now() {
    let next = at(2025, 1, 1, 17);
    let claimed = claim(Some(job(next, Some(24))), "w", next + 50 * HOUR_MICROS)
        .schedule
        .unwrap();
    let done = complete(Some(claimed), "w", next + 50 * HOUR_MICROS).ok().unwrap();
    assert_eq!(done.status, "idle");
    assert_eq!(done.next_run_at, next + 72 * HOUR_MICROS);
    assert_eq!(done.lease_owner, None);
    assert_eq!(done.last_success_at, Some(next + 50 * HOUR_MICROS));
}

#[test]
fn monthly_completion_restarts_at_midnight_in_jakarta() {
    let mut j = job(at(2025, 1, 1, 17), None);
    j.interval_months = 1;
    let now = at(2025, 1, 31, 10);
    let claimed = claim(Some(j), "w", now).schedule.unwrap();
    let done = complete(Some(claimed), "w", now).ok().unwrap();
    assert_eq!(done.next_run_at, at(2025, 2, 27, 17));
}

#[test]
fn only_the_lease_holder_finishes() {
    let now = at(2025, 1, 3, 0);
    let s = claim(Some(job(at(2025, 1, 2, 17), Some(24))), "a", now)
        .schedule
        .unwrap();
    assert!(matches!(
        complete(Some(s.clone_for_test()), "b", now),
        Err(ScheduleError::LeaseLost)
    ));
    assert!(matches!(fail(Some(s), "b", "boom", now), Err(ScheduleError::LeaseLost)));
    assert!(matches!(complete(None, "a", now), Err(ScheduleError::LeaseLost)));
}

#[test]
fn failure_waits_an_hour_before_a_retry() {
    let now = at(2025, 1, 3, 0);
    let s = claim(Some(job(at(2025, 1, 2, 17), Some(24))), "a", now)
        .schedule
        .unwrap();
    let f = fail(Some(s), "a", "erp down", now).ok().unwrap();
    assert_eq!(f.status, "failed");
    assert_eq!(f.retry_after_at, Some(now + RETRY_MICROS));
    assert_eq!(f.last_error.as_deref(), Some("erp down"));
    assert_eq!(f.lease_owner, None);
    assert!(!claim(Some(f.clone_for_test()), "b", now + RETRY_MICROS - 1).claimed);
    assert!(claim(Some(f), "b", now + RETRY_MICROS).claimed);
}

#[test]
fn disabling_and_enabling() {
    let body = UpdateSchedule {
        enabled: Some(false),
        interval_months: Some(3),
        next_run_at: None,
        actor: Some("pm".to_owned()),
    };
    let d = update(Some(job(at(2025, 1, 1, 17), None)), &body).unwrap();
    assert_eq!(d.status, "disabled");
    assert_eq!(d.interval_months, 3);
    assert_eq!(d.updated_by.as_deref(), Some("pm"));
    assert!(!claim(Some(d.clone_for_test()), "w", at(2026, 1, 1, 0)).claimed);
    let body = UpdateSchedule {
        enabled: Some(true),
        interval_months: None,
        next_run_at: Some(at(2000, 1, 1, 17)),
        actor: None,
    };
    let e = update(Some(d), &body).unwrap();
    assert_eq!(e.status, "idle");
    assert_eq!(e.next_run_at, at(2000, 1, 1, 17));
    assert!(update(None, &body).is_none());
}

#[test]
fn well_formedness_and_clock() {
    assert!(job(at(2025, 1, 1, 17), None).is_well_formed());
    let mut j = job(at(2025, 1, 1, 17), None);
    j.row_version = u64::MAX;
    assert!(!j.is_well_formed());
    assert!(clock_is_valid(at(2025, 1, 1, 0)));
    assert!(!clock_is_valid(i64::MAX));
}

#[test]
fn floor_division_rounds_down() {
    assert_eq!(floor_div(-7, 2), -4);
    assert_eq!(floor_div(7, 2), 3);
    assert_eq!(floor_div(-8, 2), -4);
}

#[test]
fn owner_and_failure_checks() {
    assert_eq!(checked_owner("  rust-test "), Some("rust-test"));
    assert_eq!(checked_owner("   "), None);
    assert_eq!(checked_owner(&"x".repeat(129)), None);
    assert_eq!(checked_owner(&"x".repeat(128)).map(|o| o.len()), Some(128));
    assert_eq!(failure_text(None), "stocking-policy refresh failed");
    assert_eq!(failure_text(Some(&"é".repeat(4001))).chars().count(), 4000);
    assert_eq!(failure_text(Some("boom")), "boom");
    assert!(interval_months_allowed(None));
    assert!(interval_months_allowed(Some(1)));
    assert!(interval_months_allowed(Some(120)));
    assert!(!interval_months_allowed(Some(0)));
    assert!(!interval_months_allowed(Some(121)));
    assert_eq!(claim_message(true), "job claimed");
    assert_eq!(claim_message(false), "job is not due or already leased");
    assert_eq!(lost_lease().status_code, 409);
    assert_eq!(invalid_owner().status_code, 400);
}

#[test]
fn completed_schedule_stays_on_the_jakarta_midnight_phase() {
    let rescheduled = at(2000, 1, 1, 17);
    let now = at(2025, 3, 4, 9) + 1234;
    let claimed = claim(Some(job(rescheduled, Some(24))), "rust-test", now);
    assert!(claimed.claimed);
    let done = complete(claimed.schedule, "rust-test", now).ok().unwrap();
    assert_eq!(done.next_run_at, at(2025, 3, 4, 17));
    assert!(!claim(Some(done), "rust-test", now).claimed);
}

#[test]
fn hourly_next_run_is_the_first_slot_after_now() {
    let next = at(2025, 1, 1, 17);
    let now = next + 48 * HOUR_MICROS;
    let claimed = claim(Some(job(next, Some(24))), "w", now).schedule.unwrap();
    let done = complete(Some(claimed), "w", now).ok().unwrap();
    assert_eq!(done.next_run_at, next + 72 * HOUR_MICROS);
    let early = next - 5 * HOUR_MICROS;
    let mut j = job(next, Some(24));
    j.status = "running".to_owned();
    j.lease_owner = Some("w".to_owned());
    let done = complete(Some(j), "w", early).ok().unwrap();
    assert_eq!(done.next_run_at, next + 24 * HOUR_MICROS);
}
