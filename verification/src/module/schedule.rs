//! The durable job schedule: when a job may be claimed, and how a claim, a completion, a
//! failure and a reschedule change its row.
//!
//! Instants are microseconds since the Unix epoch, UTC. The store computes `now` and hands it in;
//! every transition here is a pure function of the stored row, the caller and that instant.
use vstd::arithmetic::div_mod::*;
use vstd::prelude::*;

verus! {

/// One hour.
pub const HOUR_MICROS: i64 = 3_600_000_000;

/// One day.
pub const DAY_MICROS: i64 = 86_400_000_000;

/// How long a claim holds the lease: sixty minutes.
pub const LEASE_MICROS: i64 = 3_600_000_000;

/// How long a failed run waits before it may be claimed again: one hour.
pub const RETRY_MICROS: i64 = 3_600_000_000;

/// Jakarta (WIB) is seven hours ahead of UTC; calendar cadences restart at midnight there.
pub const JAKARTA_OFFSET_MICROS: i64 = 25_200_000_000;

/// Instants the schedule holds lie within this distance of the epoch (about 36 000 years,
/// well beyond any date the store accepts).
pub const INSTANT_LIMIT: i64 = 1_152_921_504_606_846_976;

/// An instant that a schedule row can hold.
pub open spec fn in_range(t: int) -> bool {
    -INSTANT_LIMIT <= t <= INSTANT_LIMIT
}

/// A clock reading far enough from the limit that a day can be added to it.
pub open spec fn valid_clock(now: int) -> bool {
    -INSTANT_LIMIT <= now && now + DAY_MICROS <= INSTANT_LIMIT
}

pub open spec fn opt_in_range(t: Option<int>) -> bool {
    t matches Some(v) ==> in_range(v)
}

pub open spec fn opt_instant(t: Option<i64>) -> Option<int> {
    match t {
        Some(v) => Some(v as int),
        None => None,
    }
}

pub open spec fn opt_text(t: Option<String>) -> Option<Seq<char>> {
    match t {
        Some(s) => Some(s@),
        None => None,
    }
}

pub open spec fn opt_count(t: Option<u16>) -> Option<int> {
    match t {
        Some(v) => Some(v as int),
        None => None,
    }
}

/// A job's schedule row as stored.
pub struct JobSchedule {
    pub job_key: String,
    pub enabled: bool,
    /// Calendar cadence, used when `interval_hours` is absent.
    pub interval_months: u16,
    /// Rolling operational cadence.
    pub interval_hours: Option<u16>,
    pub next_run_at: i64,
    pub retry_after_at: Option<i64>,
    /// `idle`, `running`, `failed` or `disabled`.
    pub status: String,
    pub last_run_started_at: Option<i64>,
    pub last_run_finished_at: Option<i64>,
    pub last_success_at: Option<i64>,
    pub lease_owner: Option<String>,
    pub lease_expires_at: Option<i64>,
    pub last_error: Option<String>,
    pub row_version: u64,
    pub updated_by: Option<String>,
    /// Maintained by the store itself.
    pub updated_at: i64,
}

/// The mathematical value of a schedule row.
pub struct ScheduleView {
    pub job_key: Seq<char>,
    pub enabled: bool,
    pub interval_months: int,
    pub interval_hours: Option<int>,
    pub next_run_at: int,
    pub retry_after_at: Option<int>,
    pub status: Seq<char>,
    pub last_run_started_at: Option<int>,
    pub last_run_finished_at: Option<int>,
    pub last_success_at: Option<int>,
    pub lease_owner: Option<Seq<char>>,
    pub lease_expires_at: Option<int>,
    pub last_error: Option<Seq<char>>,
    pub row_version: int,
    pub updated_by: Option<Seq<char>>,
    pub updated_at: int,
}

impl View for JobSchedule {
    type V = ScheduleView;

    open spec fn view(&self) -> ScheduleView {
        ScheduleView {
            job_key: self.job_key@,
            enabled: self.enabled,
            interval_months: self.interval_months as int,
            interval_hours: opt_count(self.interval_hours),
            next_run_at: self.next_run_at as int,
            retry_after_at: opt_instant(self.retry_after_at),
            status: self.status@,
            last_run_started_at: opt_instant(self.last_run_started_at),
            last_run_finished_at: opt_instant(self.last_run_finished_at),
            last_success_at: opt_instant(self.last_success_at),
            lease_owner: opt_text(self.lease_owner),
            lease_expires_at: opt_instant(self.lease_expires_at),
            last_error: opt_text(self.last_error),
            row_version: self.row_version as int,
            updated_by: opt_text(self.updated_by),
            updated_at: self.updated_at as int,
        }
    }
}

/// The row's instants lie in range and its version can still be bumped.
pub open spec fn schedule_valid(s: ScheduleView) -> bool {
    &&& in_range(s.next_run_at)
    &&& opt_in_range(s.retry_after_at)
    &&& opt_in_range(s.last_run_started_at)
    &&& opt_in_range(s.last_run_finished_at)
    &&& opt_in_range(s.last_success_at)
    &&& opt_in_range(s.lease_expires_at)
    &&& in_range(s.updated_at)
    &&& 0 <= s.row_version < u64::MAX
}

/// The job may be claimed at `now`: it is enabled and due, any retry delay has passed, and no
/// unexpired lease is held on it.
pub open spec fn claimable(s: ScheduleView, now: int) -> bool {
    &&& s.enabled
    &&& s.next_run_at <= now
    &&& (s.retry_after_at matches Some(r) ==> r <= now)
    &&& (s.status == "running"@ ==> (s.lease_expires_at matches Some(e) ==> e <= now))
}

/// The row after `owner` claims it at `now`.
pub open spec fn claimed(s: ScheduleView, owner: Seq<char>, now: int) -> ScheduleView {
    ScheduleView {
        status: "running"@,
        last_run_started_at: Some(now),
        last_run_finished_at: None,
        lease_owner: Some(owner),
        lease_expires_at: Some(now + LEASE_MICROS),
        last_error: None,
        updated_by: Some(owner),
        row_version: s.row_version + 1,
        ..s
    }
}

/// `owner` holds the running job's lease.
pub open spec fn holds_lease(s: ScheduleView, owner: Seq<char>) -> bool {
    s.status == "running"@ && s.lease_owner == Some(owner)
}

/// Whole hours from `from` to `to`, truncated toward zero.
pub open spec fn hours_between(from: int, to: int) -> int {
    let d = to - from;
    if d >= 0 {
        d / (HOUR_MICROS as int)
    } else {
        -((-d) / (HOUR_MICROS as int))
    }
}

/// The rolling cadence: the first slot `next + k * hours` (`k >= 1`) past the hours elapsed.
pub open spec fn hourly_next(next: int, now: int, hours: int) -> int {
    let steps = hours_between(next, now) / hours;
    let k = if steps + 1 < 1 {
        1
    } else {
        steps + 1
    };
    next + k * hours * HOUR_MICROS
}

/// The day number, counted from 1970-01-01, of the Jakarta calendar date at `now`.
pub open spec fn jakarta_day(now: int) -> int {
    (now + JAKARTA_OFFSET_MICROS) / (DAY_MICROS as int)
}

/// What chrono's `NaiveDate::checked_add_months` gives for the date `epoch_day` days after
/// 1970-01-01 and `months` months, as a day number again; `None` outside chrono's calendar.
pub uninterp spec fn calendar_month_shift(epoch_day: int, months: int) -> Option<int>;

/// The next run after a success at `now`: the rolling hourly slot when the job has an hourly
/// cadence, otherwise midnight in Jakarta `interval_months` calendar months after today.
pub open spec fn next_run_after_success(s: ScheduleView, now: int) -> Option<int> {
    match s.interval_hours {
        Some(h) => if h > 0 {
            Some(hourly_next(s.next_run_at, now, h))
        } else {
            None
        },
        None => match calendar_month_shift(jakarta_day(now), s.interval_months) {
            Some(d) => Some(d * DAY_MICROS - JAKARTA_OFFSET_MICROS),
            None => None,
        },
    }
}

/// Why a finishing call changed nothing.
#[derive(PartialEq, Eq, Structural, Debug, Clone, Copy)]
pub enum ScheduleError {
    /// The job is not running under the caller's lease (or does not exist).
    LeaseLost,
    /// The next run cannot be computed (an hourly cadence of zero hours, a date outside the
    /// calendar) or would fall outside the instants the schedule can hold.
    NextRunOutOfRange,
}

/// The row after `owner` finishes a run successfully at `now`, the next run set to `next`.
pub open spec fn completed(s: ScheduleView, owner: Seq<char>, now: int, next: int) -> ScheduleView {
    ScheduleView {
        status: "idle"@,
        last_run_finished_at: Some(now),
        last_success_at: Some(now),
        next_run_at: next,
        retry_after_at: None,
        lease_owner: None,
        lease_expires_at: None,
        last_error: None,
        updated_by: Some(owner),
        row_version: s.row_version + 1,
        ..s
    }
}

/// The outcome of `owner` completing the job at `now`.
pub open spec fn completion(s: ScheduleView, owner: Seq<char>, now: int) -> Result<
    ScheduleView,
    ScheduleError,
> {
    if !holds_lease(s, owner) {
        Err(ScheduleError::LeaseLost)
    } else {
        match next_run_after_success(s, now) {
            Some(next) => if in_range(next) {
                Ok(completed(s, owner, now, next))
            } else {
                Err(ScheduleError::NextRunOutOfRange)
            },
            None => Err(ScheduleError::NextRunOutOfRange),
        }
    }
}

/// The row after `owner` reports a failed run at `now`: the lease is released, the next run
/// stays due, and a retry waits an hour.
pub open spec fn failed(s: ScheduleView, owner: Seq<char>, error: Seq<char>, now: int) -> ScheduleView {
    ScheduleView {
        status: "failed"@,
        last_run_finished_at: Some(now),
        retry_after_at: Some(now + RETRY_MICROS),
        lease_owner: None,
        lease_expires_at: None,
        last_error: Some(error),
        updated_by: Some(owner),
        row_version: s.row_version + 1,
        ..s
    }
}

/// The outcome of `owner` reporting a failure at `now`.
pub open spec fn failure(s: ScheduleView, owner: Seq<char>, error: Seq<char>, now: int) -> Result<
    ScheduleView,
    ScheduleError,
> {
    if holds_lease(s, owner) {
        Ok(failed(s, owner, error, now))
    } else {
        Err(ScheduleError::LeaseLost)
    }
}

/// A reschedule request; absent fields keep their stored value.
pub struct UpdateSchedule {
    pub enabled: Option<bool>,
    pub interval_months: Option<u16>,
    pub next_run_at: Option<i64>,
    pub actor: Option<String>,
}

/// The row after a reschedule: disabling marks the job `disabled`, enabling a disabled job
/// makes it `idle`, any other status is kept.
pub open spec fn rescheduled(
    s: ScheduleView,
    enabled: Option<bool>,
    months: Option<int>,
    next: Option<int>,
    actor: Option<Seq<char>>,
) -> ScheduleView {
    let now_enabled = match enabled {
        Some(e) => e,
        None => s.enabled,
    };
    ScheduleView {
        enabled: now_enabled,
        interval_months: match months {
            Some(m) => m,
            None => s.interval_months,
        },
        next_run_at: match next {
            Some(t) => t,
            None => s.next_run_at,
        },
        status: if !now_enabled {
            "disabled"@
        } else if s.status == "disabled"@ {
            "idle"@
        } else {
            s.status
        },
        updated_by: match actor {
            Some(a) => Some(a),
            None => s.updated_by,
        },
        row_version: s.row_version + 1,
        ..s
    }
}

/// The outcome of a claim attempt, with the row as it stands afterwards.
pub struct ClaimResult {
    pub claimed: bool,
    pub schedule: Option<JobSchedule>,
}

/// A claim request.
pub struct ClaimJob {
    pub owner: String,
}

/// A completion or failure report.
pub struct FinishJob {
    pub owner: String,
    pub error: Option<String>,
}

proof fn lemma_div_bounds(x: int, d: int)
    requires
        d > 0,
    ensures
        (x / d) * d <= x < (x / d) * d + d,
{
    lemma_fundamental_div_mod(x, d);
    lemma_mod_bound(x, d);
    assert(d * (x / d) == (x / d) * d) by (nonlinear_arith);
}

proof fn lemma_div_unique(x: int, d: int, q: int)
    requires
        d > 0,
        q * d <= x < q * d + d,
    ensures
        x / d == q,
{
    lemma_fundamental_div_mod_converse_div(x, d, q, x - q * d);
}


/// The rolling hourly slot lies strictly after `now`.
proof fn lemma_hourly_next_after(next: int, now: int, hours: int)
    requires
        hours >= 1,
    ensures
        hourly_next(next, now, hours) > now,
{
    let e = now - next;
    let hb = hours_between(next, now);
    let steps = hb / hours;
    let k = if steps + 1 < 1 {
        1
    } else {
        steps + 1
    };
    let big_h = HOUR_MICROS as int;
    if e >= 0 {
        lemma_div_bounds(e, big_h);
        assert(hb == e / big_h);
        assert(hb >= 0) by (nonlinear_arith)
            requires
                e >= 0,
                hb * big_h <= e < hb * big_h + big_h,
                big_h > 0,
        ;
        lemma_div_bounds(hb, hours);
        assert(steps >= 0) by (nonlinear_arith)
            requires
                hb >= 0,
                steps * hours <= hb < steps * hours + hours,
                hours >= 1,
        ;
        assert(k == steps + 1);
        assert(k * hours >= hb + 1) by (nonlinear_arith)
            requires
                k == steps + 1,
                hb < steps * hours + hours,
        ;
        assert(k * hours * big_h > e) by (nonlinear_arith)
            requires
                k * hours >= hb + 1,
                e < hb * big_h + big_h,
                big_h > 0,
        ;
    } else {
        assert(k >= 1);
        assert(k * hours * big_h >= big_h) by (nonlinear_arith)
            requires
                k >= 1,
                hours >= 1,
                big_h > 0,
        ;
    }
}

/// Midnight in Jakarta on a later calendar day lies strictly after `now`.
proof fn lemma_later_midnight_after(now: int, day: int)
    requires
        day > jakarta_day(now),
    ensures
        day * DAY_MICROS - JAKARTA_OFFSET_MICROS > now,
{
    let x = now + JAKARTA_OFFSET_MICROS;
    lemma_div_bounds(x, DAY_MICROS as int);
    let today = jakarta_day(now);
    assert(day * DAY_MICROS >= (today + 1) * DAY_MICROS) by (nonlinear_arith)
        requires
            day >= today + 1,
    ;
}


/// Jakarta midnight of day `d` falls on day `d`.
proof fn lemma_midnight_day(d: int)
    ensures
        jakarta_day(d * DAY_MICROS - JAKARTA_OFFSET_MICROS) == d,
{
    lemma_div_unique(d * DAY_MICROS, DAY_MICROS as int, d);
}

/// The rolling hourly slot is the least slot after `now`: either the slot before it is not
/// after `now`, or it is the first slot after the previous next run.
pub proof fn law_hourly_next_is_the_least_later_slot(next: int, now: int, hours: int)
    requires
        hours >= 1,
    ensures
        hourly_next(next, now, hours) - hours * HOUR_MICROS <= now || hourly_next(next, now, hours)
            == next + hours * HOUR_MICROS,
{
    let e = now - next;
    let hb = hours_between(next, now);
    let steps = hb / hours;
    let big_h = HOUR_MICROS as int;
    lemma_div_bounds(hb, hours);
    if e >= 0 {
        lemma_div_bounds(e, big_h);
        assert(hb >= 0) by (nonlinear_arith)
            requires
                e >= 0,
                hb * big_h <= e < hb * big_h + big_h,
                big_h > 0,
        ;
        assert(steps >= 0) by (nonlinear_arith)
            requires
                hb >= 0,
                steps * hours <= hb < steps * hours + hours,
                hours >= 1,
        ;
        assert((steps + 1) * hours * big_h - hours * big_h == steps * hours * big_h)
            by (nonlinear_arith);
        assert(steps * hours * big_h <= e) by (nonlinear_arith)
            requires
                steps * hours <= hb,
                hb * big_h <= e,
                big_h > 0,
        ;
    } else {
        assert(hb <= 0) by (nonlinear_arith)
            requires
                e < 0,
                hb == -((-e) / big_h),
                (-e) / big_h >= 0,
        {
        }
        assert(steps <= 0) by (nonlinear_arith)
            requires
                hb <= 0,
                steps * hours <= hb,
                hours >= 1,
        ;
    }
}

/// `x` divided by `d`, rounded down.
pub fn floor_div(x: i64, d: i64) -> (q: i64)
    requires
        d > 0,
        x > i64::MIN,
    ensures
        q as int == x as int / d as int,
        x >= 0 ==> 0 <= q <= x,
        x < 0 ==> x <= q < 0,
{
    if x >= 0 {
        let q = x / d;
        proof {
            lemma_div_bounds(x as int, d as int);
            assert(q * d >= q) by (nonlinear_arith)
                requires
                    q >= 0,
                    d >= 1,
            ;
        }
        q
    } else {
        let y = -x;
        let t = (y - 1) / d;
        proof {
            lemma_div_bounds((y - 1) as int, d as int);
            assert(t >= 0);
            assert(t * d >= t) by (nonlinear_arith)
                requires
                    t >= 0,
                    d >= 1,
            ;
            let q: int = -t - 1;
            assert(q * d == -(t * d) - d) by (nonlinear_arith)
                requires
                    q == -t - 1,
            ;
            lemma_div_unique(x as int, d as int, q);
        }
        -t - 1
    }
}

/// The rolling hourly slot, as an exact integer.
fn hourly_next_exec(next: i64, now: i64, hours: u16) -> (r: i128)
    requires
        in_range(next as int),
        in_range(now as int),
        hours > 0,
    ensures
        r as int == hourly_next(next as int, now as int, hours as int),
{
    let elapsed = now - next;
    let elapsed_hours = elapsed / HOUR_MICROS;
    let h = hours as i64;
    assert(elapsed_hours as int == hours_between(next as int, now as int));
    assert(-1_000_000_000 <= elapsed_hours <= 1_000_000_000);
    let steps = floor_div(elapsed_hours, h);
    let k: i64 = if steps + 1 < 1 {
        1
    } else {
        steps + 1
    };
    proof {
        assert(-4_000_000_000 <= k <= 4_000_000_000);
        assert(-4_000_000_000 * 65536 <= k * h <= 4_000_000_000 * 65536) by (nonlinear_arith)
            requires
                -4_000_000_000 <= k <= 4_000_000_000,
                1 <= h <= 65535,
        ;
    }
    let kh = (k as i128) * (h as i128);
    proof {
        assert(-4_000_000_000 * 65536 * 3_600_000_000 <= kh * 3_600_000_000 <= 4_000_000_000 * 65536
            * 3_600_000_000) by (nonlinear_arith)
            requires
                -4_000_000_000 * 65536 <= kh <= 4_000_000_000 * 65536,
        ;
    }
    let span = kh * (HOUR_MICROS as i128);
    (next as i128) + span
}

/// `NaiveDate::checked_add_months` on the date `epoch_day` days after 1970-01-01: the same day of
/// the month `months` months later, or that month's last day when it is shorter; `None` when a
/// date leaves chrono's calendar. A later month is a later day.
#[verifier::external_body]
fn add_calendar_months(epoch_day: i32, months: u32) -> (r: Option<i32>)
    ensures
        r matches Some(d) ==> calendar_month_shift(epoch_day as int, months as int) == Some(d as int),
        r is None ==> calendar_month_shift(epoch_day as int, months as int) is None,
        months > 0 ==> (r matches Some(d) ==> d > epoch_day),
{
    chrono::NaiveDate::from_epoch_days(epoch_day)?.checked_add_months(
        chrono::Months::new(months),
    ).map(|d| d.to_epoch_days())
}

/// The Jakarta calendar date of `now`, as a day number.
fn jakarta_day_exec(now: i64) -> (d: i32)
    requires
        in_range(now as int),
    ensures
        d as int == jakarta_day(now as int),
{
    let shifted = now + JAKARTA_OFFSET_MICROS;
    let day = floor_div(shifted, DAY_MICROS);
    proof {
        lemma_div_bounds(shifted as int, DAY_MICROS as int);
        assert(-20_000_000 <= day <= 20_000_000);
    }
    day as i32
}

/// The next run after a success at `now`, if it lies in range.
fn next_run_exec(s: &JobSchedule, now: i64) -> (r: Option<i64>)
    requires
        schedule_valid(s@),
        in_range(now as int),
    ensures
        r matches Some(t) ==> next_run_after_success(s@, now as int) == Some(t as int) && in_range(
            t as int,
        ),
        r is None ==> !(next_run_after_success(s@, now as int) matches Some(t) && in_range(t)),
        (s.interval_hours is Some || s.interval_months >= 1) ==> (r matches Some(t) ==> t > now),
        s.interval_hours matches Some(h) ==> (r matches Some(t) ==> (t - h * HOUR_MICROS <= now || t
            == s.next_run_at + h * HOUR_MICROS)),
        s.interval_hours is None ==> (r matches Some(t) ==> calendar_month_shift(
            jakarta_day(now as int),
            s.interval_months as int,
        ) == Some(jakarta_day(t as int)) && t + JAKARTA_OFFSET_MICROS == jakarta_day(t as int)
            * DAY_MICROS),
{
    let next: i128 = match s.interval_hours {
        Some(h) => {
            if h == 0 {
                return None;
            }
            proof {
                lemma_hourly_next_after(s.next_run_at as int, now as int, h as int);
                law_hourly_next_is_the_least_later_slot(s.next_run_at as int, now as int, h as int);
            }
            hourly_next_exec(s.next_run_at, now, h)
        },
        None => {
            let today = jakarta_day_exec(now);
            match add_calendar_months(today, s.interval_months as u32) {
                Some(d) => {
                    proof {
                        if s.interval_months >= 1 {
                            lemma_later_midnight_after(now as int, d as int);
                        }
                        lemma_midnight_day(d as int);
                        assert(-2_147_483_648i128 * 86_400_000_000 <= (d as i128) * 86_400_000_000
                            <= 2_147_483_647i128 * 86_400_000_000) by (nonlinear_arith)
                            requires
                                -2_147_483_648i128 <= d <= 2_147_483_647i128,
                        ;
                    }
                    (d as i128) * (DAY_MICROS as i128) - (JAKARTA_OFFSET_MICROS as i128)
                },
                None => {
                    return None;
                },
            }
        },
    };
    if next < -(INSTANT_LIMIT as i128) || next > INSTANT_LIMIT as i128 {
        None
    } else {
        Some(next as i64)
    }
}


fn opt_instant_in_range(t: Option<i64>) -> (r: bool)
    ensures
        r == opt_in_range(opt_instant(t)),
{
    match t {
        Some(v) => -INSTANT_LIMIT <= v && v <= INSTANT_LIMIT,
        None => true,
    }
}

impl JobSchedule {
    /// Whether the row's instants lie in range and its version can still be bumped; the
    /// transitions below are defined for such rows.
    pub fn is_well_formed(&self) -> (r: bool)
        ensures
            r == schedule_valid(self@),
    {
        -INSTANT_LIMIT <= self.next_run_at && self.next_run_at <= INSTANT_LIMIT
            && opt_instant_in_range(self.retry_after_at) && opt_instant_in_range(
            self.last_run_started_at,
        ) && opt_instant_in_range(self.last_run_finished_at) && opt_instant_in_range(
            self.last_success_at,
        ) && opt_instant_in_range(self.lease_expires_at) && -INSTANT_LIMIT <= self.updated_at
            && self.updated_at <= INSTANT_LIMIT && self.row_version < u64::MAX
    }
}

/// Whether a clock reading is one the transitions accept.
pub fn clock_is_valid(now: i64) -> (r: bool)
    ensures
        r == valid_clock(now as int),
{
    -INSTANT_LIMIT <= now && now <= INSTANT_LIMIT - DAY_MICROS
}

fn copy_text(s: &str) -> (r: String)
    ensures
        r@ == s@,
{
    crate::text::owned(s)
}

/// `owner` tries to claim the job at `now`. The claim succeeds exactly when the job is
/// claimable; the row then runs under `owner`'s lease for sixty minutes. A missing row is
/// never claimed.
pub fn claim(row: Option<JobSchedule>, owner: &str, now: i64) -> (r: ClaimResult)
    requires
        row matches Some(s) ==> schedule_valid(s@),
        valid_clock(now as int),
    ensures
        row is None ==> !r.claimed && r.schedule is None,
        row matches Some(s) ==> {
            &&& r.claimed == claimable(s@, now as int)
            &&& r.schedule matches Some(n) && n@ == if r.claimed {
                claimed(s@, owner@, now as int)
            } else {
                s@
            }
        },
{
    match row {
        None => ClaimResult { claimed: false, schedule: None },
        Some(s) => {
            let retry_passed = match s.retry_after_at {
                Some(t) => t <= now,
                None => true,
            };
            let lease_free = if crate::text::str_eq(s.status.as_str(), "running") {
                match s.lease_expires_at {
                    Some(e) => e <= now,
                    None => true,
                }
            } else {
                true
            };
            if s.enabled && s.next_run_at <= now && retry_passed && lease_free {
                let n = JobSchedule {
                    status: copy_text("running"),
                    last_run_started_at: Some(now),
                    last_run_finished_at: None,
                    lease_owner: Some(copy_text(owner)),
                    lease_expires_at: Some(now + LEASE_MICROS),
                    last_error: None,
                    updated_by: Some(copy_text(owner)),
                    row_version: s.row_version + 1,
                    ..s
                };
                ClaimResult { claimed: true, schedule: Some(n) }
            } else {
                ClaimResult { claimed: false, schedule: Some(s) }
            }
        },
    }
}

fn lease_held(s: &JobSchedule, owner: &str) -> (r: bool)
    ensures
        r == holds_lease(s@, owner@),
{
    if !crate::text::str_eq(s.status.as_str(), "running") {
        return false;
    }
    match &s.lease_owner {
        Some(o) => crate::text::str_eq(o.as_str(), owner),
        None => false,
    }
}

pub open spec fn outcome_matches(
    r: Result<JobSchedule, ScheduleError>,
    spec: Result<ScheduleView, ScheduleError>,
) -> bool {
    match (r, spec) {
        (Ok(n), Ok(v)) => n@ == v,
        (Err(e), Err(f)) => e == f,
        _ => false,
    }
}

/// `owner` finishes the job successfully at `now`: only the holder of the running lease may;
/// the lease is released and the next run moves to the next slot of the job's cadence.
pub fn complete(row: Option<JobSchedule>, owner: &str, now: i64) -> (r: Result<
    JobSchedule,
    ScheduleError,
>)
    requires
        row matches Some(s) ==> schedule_valid(s@),
        valid_clock(now as int),
    ensures
        row is None ==> r == Err::<JobSchedule, ScheduleError>(ScheduleError::LeaseLost),
        row matches Some(s) ==> outcome_matches(r, completion(s@, owner@, now as int)),
        row matches Some(s) ==> ((s.interval_hours is Some || s.interval_months >= 1) ==> (r matches Ok(
            n) ==> n.next_run_at > now)),
        row matches Some(s) ==> (s.interval_hours matches Some(h) ==> (r matches Ok(n) ==> (
        n.next_run_at - h * HOUR_MICROS <= now || n.next_run_at == s.next_run_at + h
            * HOUR_MICROS))),
        row matches Some(s) ==> (s.interval_hours is None ==> (r matches Ok(n)
            ==> calendar_month_shift(jakarta_day(now as int), s.interval_months as int) == Some(
            jakarta_day(n.next_run_at as int),
        ) && n.next_run_at + JAKARTA_OFFSET_MICROS == jakarta_day(n.next_run_at as int)
            * DAY_MICROS)),
{
    match row {
        None => Err(ScheduleError::LeaseLost),
        Some(s) => {
            if !lease_held(&s, owner) {
                return Err(ScheduleError::LeaseLost);
            }
            match next_run_exec(&s, now) {
                None => Err(ScheduleError::NextRunOutOfRange),
                Some(next) => Ok(
                    JobSchedule {
                        status: copy_text("idle"),
                        last_run_finished_at: Some(now),
                        last_success_at: Some(now),
                        next_run_at: next,
                        retry_after_at: None,
                        lease_owner: None,
                        lease_expires_at: None,
                        last_error: None,
                        updated_by: Some(copy_text(owner)),
                        row_version: s.row_version + 1,
                        ..s
                    },
                ),
            }
        },
    }
}

/// `owner` reports a failed run at `now` with `error`: only the holder of the running lease
/// may; the lease is released and the job waits an hour before it can be claimed again.
pub fn fail(row: Option<JobSchedule>, owner: &str, error: &str, now: i64) -> (r: Result<
    JobSchedule,
    ScheduleError,
>)
    requires
        row matches Some(s) ==> schedule_valid(s@),
        valid_clock(now as int),
    ensures
        row is None ==> r == Err::<JobSchedule, ScheduleError>(ScheduleError::LeaseLost),
        row matches Some(s) ==> outcome_matches(r, failure(s@, owner@, error@, now as int)),
{
    match row {
        None => Err(ScheduleError::LeaseLost),
        Some(s) => {
            if !lease_held(&s, owner) {
                return Err(ScheduleError::LeaseLost);
            }
            Ok(
                JobSchedule {
                    status: copy_text("failed"),
                    last_run_finished_at: Some(now),
                    retry_after_at: Some(now + RETRY_MICROS),
                    lease_owner: None,
                    lease_expires_at: None,
                    last_error: Some(copy_text(error)),
                    updated_by: Some(copy_text(owner)),
                    row_version: s.row_version + 1,
                    ..s
                },
            )
        },
    }
}

/// Applies a reschedule request to the row; a missing row stays missing.
pub fn update(row: Option<JobSchedule>, body: &UpdateSchedule) -> (r: Option<JobSchedule>)
    requires
        row matches Some(s) ==> schedule_valid(s@),
    ensures
        row is None ==> r is None,
        row matches Some(s) ==> r matches Some(n) && n@ == rescheduled(
            s@,
            body.enabled,
            opt_count(body.interval_months),
            opt_instant(body.next_run_at),
            opt_text(body.actor),
        ),
        row matches Some(s) ==> (r matches Some(n) && {
            &&& body.enabled is None ==> n.enabled == s.enabled
            &&& body.enabled matches Some(e) ==> n.enabled == e
            &&& body.interval_months is None ==> n.interval_months == s.interval_months
            &&& body.interval_months matches Some(m) ==> n.interval_months == m
            &&& body.next_run_at is None ==> n.next_run_at == s.next_run_at
            &&& body.next_run_at matches Some(t) ==> n.next_run_at == t
            &&& body.actor is None ==> n@.updated_by == s@.updated_by
            &&& body.actor matches Some(a) ==> n@.updated_by == Some(a@)
            &&& !n.enabled ==> n.status@ == "disabled"@
            &&& n.enabled && s.status@ == "disabled"@ ==> n.status@ == "idle"@
            &&& n.enabled && s.status@ != "disabled"@ ==> n.status@ == s.status@
            &&& n.row_version == s.row_version + 1
        }),
{
    match row {
        None => None,
        Some(s) => {
            let enabled = match body.enabled {
                Some(e) => e,
                None => s.enabled,
            };
            let status = if !enabled {
                copy_text("disabled")
            } else if crate::text::str_eq(s.status.as_str(), "disabled") {
                copy_text("idle")
            } else {
                s.status
            };
            let updated_by = match &body.actor {
                Some(a) => Some(a.clone()),
                None => s.updated_by,
            };
            Some(
                JobSchedule {
                    enabled,
                    interval_months: match body.interval_months {
                        Some(m) => m,
                        None => s.interval_months,
                    },
                    next_run_at: match body.next_run_at {
                        Some(t) => t,
                        None => s.next_run_at,
                    },
                    status,
                    updated_by,
                    row_version: s.row_version + 1,
                    ..s
                },
            )
        },
    }
}


/// When a job may be claimed: never while disabled, before its next run or within a retry
/// delay; an enabled job that is not running and waits on no retry is claimable exactly from its
/// next run on.
pub proof fn law_claim_waits_for_due_enabled_job(s: ScheduleView, t: int)
    ensures
        !s.enabled ==> !claimable(s, t),
        t < s.next_run_at ==> !claimable(s, t),
        s.retry_after_at matches Some(r) && t < r ==> !claimable(s, t),
        s.enabled && s.retry_after_at is None && s.status != "running"@ ==> (claimable(s, t) <==> s.next_run_at
            <= t),
{
}

/// A claim takes a one-hour lease: the claimed row is running under the claimant, its lease
/// ends an hour after the claim, and once that hour has passed anyone may claim the job again.
pub proof fn law_claim_takes_an_hour_lease(s: ScheduleView, owner: Seq<char>, t1: int, t2: int)
    requires
        claimable(s, t1),
    ensures
        claimed(s, owner, t1).status == "running"@,
        claimed(s, owner, t1).lease_owner == Some(owner),
        claimed(s, owner, t1).lease_expires_at == Some(t1 + 3_600_000_000),
        claimed(s, owner, t1).last_run_started_at == Some(t1),
        claimed(s, owner, t1).last_error is None,
        claimed(s, owner, t1).next_run_at == s.next_run_at,
        claimed(s, owner, t1).row_version == s.row_version + 1,
        t2 >= t1 + 3_600_000_000 ==> claimable(claimed(s, owner, t1), t2),
{
}

/// A successful claim excludes every other claim, by anyone, until its lease expires: a
/// second `claim` within the lease reports `claimed == false` and hands the row back
/// unchanged, still leased to the first claimant. The claimed row stays valid for that second
/// call while its version counter can still be bumped.
pub proof fn law_lease_excludes_other_claims(s: ScheduleView, owner: Seq<char>, t1: int, t2: int)
    requires
        claimable(s, t1),
        t2 < t1 + LEASE_MICROS,
    ensures
        !claimable(claimed(s, owner, t1), t2),
        claimed(s, owner, t1).lease_owner == Some(owner),
        schedule_valid(s) && valid_clock(t1) && s.row_version + 1 < u64::MAX ==> schedule_valid(
            claimed(s, owner, t1),
        ),
{
}

/// After a successful claim, the claimant and only the claimant may finish the run.
pub proof fn law_only_claimant_finishes(
    s: ScheduleView,
    owner: Seq<char>,
    other: Seq<char>,
    error: Seq<char>,
    t1: int,
    t2: int,
)
    requires
        claimable(s, t1),
        other != owner,
    ensures
        holds_lease(claimed(s, owner, t1), owner),
        failure(claimed(s, owner, t1), owner, error, t2) is Ok,
        completion(claimed(s, owner, t1), owner, t2) != Err::<ScheduleView, ScheduleError>(
            ScheduleError::LeaseLost,
        ),
        completion(claimed(s, owner, t1), other, t2) == Err::<ScheduleView, ScheduleError>(
            ScheduleError::LeaseLost,
        ),
        failure(claimed(s, owner, t1), other, error, t2) == Err::<ScheduleView, ScheduleError>(
            ScheduleError::LeaseLost,
        ),
{
}

/// A completed run releases the lease, and the job cannot be claimed again before its next run.
pub proof fn law_completed_job_waits_for_next_run(s: ScheduleView, owner: Seq<char>, now: int, t: int)
    requires
        completion(s, owner, now) is Ok,
        t < completion(s, owner, now)->Ok_0.next_run_at,
    ensures
        completion(s, owner, now)->Ok_0.lease_owner is None,
        completion(s, owner, now)->Ok_0.status == "idle"@,
        !claimable(completion(s, owner, now)->Ok_0, t),
{
}

/// A completed run is recorded as a success at `now`, clears any retry delay and error, and the
/// job, while enabled, can be claimed again as soon as its next run comes.
pub proof fn law_completed_job_is_claimable_when_due(
    s: ScheduleView,
    owner: Seq<char>,
    now: int,
    t: int,
)
    requires
        completion(s, owner, now) is Ok,
    ensures
        completion(s, owner, now)->Ok_0.last_success_at == Some(now),
        completion(s, owner, now)->Ok_0.last_run_finished_at == Some(now),
        completion(s, owner, now)->Ok_0.retry_after_at is None,
        completion(s, owner, now)->Ok_0.last_error is None,
        completion(s, owner, now)->Ok_0.enabled == s.enabled,
        completion(s, owner, now)->Ok_0.row_version == s.row_version + 1,
        s.enabled && completion(s, owner, now)->Ok_0.next_run_at <= t ==> claimable(
            completion(s, owner, now)->Ok_0,
            t,
        ),
{
    reveal_strlit("idle");
    reveal_strlit("running");
    assert("idle"@[0] != "running"@[0]);
}

/// A reported failure records its error, and the job waits exactly one hour from the report.
pub proof fn law_failure_records_its_error(
    s: ScheduleView,
    owner: Seq<char>,
    error: Seq<char>,
    now: int,
)
    requires
        holds_lease(s, owner),
    ensures
        failure(s, owner, error, now) == Ok::<ScheduleView, ScheduleError>(failed(s, owner, error, now)),
        failed(s, owner, error, now).status == "failed"@,
        failed(s, owner, error, now).last_error == Some(error),
        failed(s, owner, error, now).retry_after_at == Some(now + 3_600_000_000),
        failed(s, owner, error, now).last_run_finished_at == Some(now),
        failed(s, owner, error, now).last_success_at == s.last_success_at,
        failed(s, owner, error, now).row_version == s.row_version + 1,
{
}

/// A reported failure releases the lease and keeps the job due; it cannot be claimed within
/// the hour, and once the hour has passed an enabled job can be claimed again.
pub proof fn law_failure_retries_after_an_hour(
    s: ScheduleView,
    owner: Seq<char>,
    error: Seq<char>,
    now: int,
    t: int,
)
    requires
        holds_lease(s, owner),
    ensures
        failed(s, owner, error, now).lease_owner is None,
        failed(s, owner, error, now).next_run_at == s.next_run_at,
        t < now + RETRY_MICROS ==> !claimable(failed(s, owner, error, now), t),
        t >= now + RETRY_MICROS && s.enabled && s.next_run_at <= t ==> claimable(
            failed(s, owner, error, now),
            t,
        ),
{
    reveal_strlit("failed");
    reveal_strlit("running");
}

/// A disabled job is never claimed, whatever the clock says; enabling a disabled job makes it
/// idle again.
pub proof fn law_disabled_job_is_never_claimed(
    s: ScheduleView,
    months: Option<int>,
    next: Option<int>,
    actor: Option<Seq<char>>,
    t: int,
)
    ensures
        rescheduled(s, Some(false), months, next, actor).status == "disabled"@,
        !claimable(rescheduled(s, Some(false), months, next, actor), t),
        s.status == "disabled"@ ==> rescheduled(s, Some(true), months, next, actor).status
            == "idle"@,
{
}


/// The hourly cadence keeps its phase: a completion moves the next run forward by a whole,
/// positive number of intervals, so a job due on the hour in Jakarta stays due on that hour.
pub proof fn law_hourly_cadence_keeps_its_phase(next: int, now: int, hours: int)
    requires
        hours >= 1,
    ensures
        (hourly_next(next, now, hours) - next) % (hours * HOUR_MICROS) == 0,
        hourly_next(next, now, hours) - next >= hours * HOUR_MICROS,
{
    let steps = hours_between(next, now) / hours;
    let k = if steps + 1 < 1 {
        1
    } else {
        steps + 1
    };
    let span = hours * HOUR_MICROS;
    assert(k * hours * HOUR_MICROS == k * span) by (nonlinear_arith)
        requires
            span == hours * HOUR_MICROS,
    ;
    lemma_mod_multiples_basic(k, span);
    assert(k * span >= span) by (nonlinear_arith)
        requires
            k >= 1,
            span >= 1,
    ;
}

/// The calendar cadence lands on midnight in Jakarta: after a successful completion of a job
/// without an hourly cadence, its next run is a Jakarta midnight.
pub proof fn law_calendar_cadence_lands_on_jakarta_midnight(s: ScheduleView, owner: Seq<char>, now: int)
    requires
        s.interval_hours is None,
        completion(s, owner, now) is Ok,
    ensures
        (completion(s, owner, now)->Ok_0.next_run_at + JAKARTA_OFFSET_MICROS) % (DAY_MICROS as int)
            == 0,
{
    let d = calendar_month_shift(jakarta_day(now), s.interval_months)->0;
    lemma_mod_multiples_basic(d, DAY_MICROS as int);
}

/// The calendar cadence counts the job's own months: after a successful completion at `now` of
/// a job without an hourly cadence, the next run falls on the Jakarta date that lies exactly the
/// job's `interval_months` calendar months after the Jakarta date of `now`, at midnight there.
pub proof fn law_calendar_cadence_counts_its_own_months(s: ScheduleView, owner: Seq<char>, now: int)
    requires
        s.interval_hours is None,
        completion(s, owner, now) is Ok,
    ensures
        calendar_month_shift(jakarta_day(now), s.interval_months) == Some(
            jakarta_day(completion(s, owner, now)->Ok_0.next_run_at),
        ),
        completion(s, owner, now)->Ok_0.next_run_at == jakarta_day(
            completion(s, owner, now)->Ok_0.next_run_at,
        ) * DAY_MICROS - JAKARTA_OFFSET_MICROS,
        completion(s, owner, now)->Ok_0.interval_months == s.interval_months,
{
    let day = calendar_month_shift(jakarta_day(now), s.interval_months)->0;
    lemma_midnight_day(day);
}

/// A reschedule changes only what its request names. An absent field keeps its stored value:
/// the enabled flag, the month cadence, the next run and the last editor; a given one replaces
/// it. Disabling marks the job `disabled`, enabling a disabled job makes it `idle`, and any other
/// status is kept. The lease, the retry delay, the hourly cadence and the run history are never
/// touched, and the version counter moves by one.
pub proof fn law_reschedule_changes_only_what_it_names(
    s: ScheduleView,
    enabled: Option<bool>,
    months: Option<int>,
    next: Option<int>,
    actor: Option<Seq<char>>,
    n: ScheduleView,
)
    requires
        n == rescheduled(s, enabled, months, next, actor),
    ensures
        enabled is None ==> n.enabled == s.enabled,
        enabled matches Some(e) ==> n.enabled == e,
        months is None ==> n.interval_months == s.interval_months,
        months matches Some(m) ==> n.interval_months == m,
        next is None ==> n.next_run_at == s.next_run_at,
        next matches Some(t) ==> n.next_run_at == t,
        actor is None ==> n.updated_by == s.updated_by,
        actor matches Some(a) ==> n.updated_by == Some(a),
        !n.enabled ==> n.status == "disabled"@,
        n.enabled && s.status == "disabled"@ ==> n.status == "idle"@,
        n.enabled && s.status != "disabled"@ ==> n.status == s.status,
        n.job_key == s.job_key,
        n.interval_hours == s.interval_hours,
        n.retry_after_at == s.retry_after_at,
        n.lease_owner == s.lease_owner,
        n.lease_expires_at == s.lease_expires_at,
        n.last_run_started_at == s.last_run_started_at,
        n.last_run_finished_at == s.last_run_finished_at,
        n.last_success_at == s.last_success_at,
        n.last_error == s.last_error,
        n.row_version == s.row_version + 1,
{
}

/// Sending the same reschedule twice changes nothing more the second time than the version
/// counter.
pub proof fn law_reschedule_is_idempotent(
    s: ScheduleView,
    enabled: Option<bool>,
    months: Option<int>,
    next: Option<int>,
    actor: Option<Seq<char>>,
)
    ensures
        rescheduled(rescheduled(s, enabled, months, next, actor), enabled, months, next, actor)
            == (ScheduleView {
            row_version: rescheduled(s, enabled, months, next, actor).row_version + 1,
            ..rescheduled(s, enabled, months, next, actor)
        }),
{
    reveal_strlit("idle");
    reveal_strlit("disabled");
    assert("idle"@[0] != "disabled"@[0]);
}

} // verus!
