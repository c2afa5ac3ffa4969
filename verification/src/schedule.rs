//! When to run: the fire times of a cron expression, the time to sleep until
//! the next one, and the loop that alternates between running the task and
//! waiting.

use vstd::prelude::*;
use vstd::string::*;
use crate::error::TaskError;

verus! {

/// `cron::error::Error`, carried from the parser to where it is dropped.
#[verifier::external_type_specification]
#[verifier::external_body]
pub struct ExCronError(cron::error::Error);

/// Whether `cron` accepts `expression` as a schedule.
pub uninterp spec fn cron_accepts(expression: Seq<char>) -> bool;

/// The first fire time of `expression` that `cron` finds after the second
/// `after_secs`, both in seconds since the Unix epoch and read in UTC, or
/// `None` where it finds none.
pub uninterp spec fn cron_next_fire(expression: Seq<char>, after_secs: i64) -> Option<i64>;

/// The seconds, before and after the epoch, within which the library asks for
/// fire times: some 253,000 years either way, well inside what `chrono` can
/// hold as a date.
pub const SECONDS_LIMIT: i64 = 8_000_000_000_000;

/// The schedule the agent runs on: at second 0 of every tenth minute.
pub open spec fn every_tenth_minute_text() -> Seq<char> {
    "0 */10 * * * *"@
}

/// Calls `cron::Schedule::from_str` and drops the schedule. Claimed: whether
/// the call succeeds depends on the expression alone; that is what
/// `cron_accepts` names.
#[verifier::external_body]
fn cron_check(expression: &str) -> (checked: Result<(), cron::error::Error>)
    ensures
        checked is Ok <==> cron_accepts(expression@),
{
    <cron::Schedule as std::str::FromStr>::from_str(expression).map(|_| ())
}

/// Calls `cron::Schedule::after` on the schedule of `expression`, from the
/// UTC instant `after_secs`, and takes the first item of the iterator as
/// seconds since the epoch. Claimed: the item depends on the expression and
/// the instant alone; that is what `cron_next_fire` names. The instant has
/// to lie within `SECONDS_LIMIT`, where `chrono` can hold it and the second
/// after it.
#[verifier::external_body]
fn cron_first_after(expression: &str, after_secs: i64) -> (fire: Option<i64>)
    requires
        cron_accepts(expression@),
        -SECONDS_LIMIT <= after_secs <= SECONDS_LIMIT,
    ensures
        fire == cron_next_fire(expression@, after_secs),
{
    let schedule = <cron::Schedule as std::str::FromStr>::from_str(expression).ok()?;
    let start = chrono::DateTime::from_timestamp(after_secs, 0)?;
    schedule.after(&start.with_timezone(&chrono_tz::UTC)).next().map(|fire| fire.timestamp())
}

/// The whole second in which the millisecond `now_millis` lies.
pub open spec fn second_of(now_millis: i64) -> int {
    now_millis as int / 1000
}

/// The next fire time of `expression` for a clock that reads `now_millis`:
/// the first one after the second in which the clock stands. There is none
/// where `cron` finds none and where the clock is beyond `SECONDS_LIMIT`.
pub open spec fn fire_after(expression: Seq<char>, now_millis: i64) -> Option<i64> {
    let second = second_of(now_millis);
    if -SECONDS_LIMIT <= second <= SECONDS_LIMIT {
        cron_next_fire(expression, second as i64)
    } else {
        None
    }
}

/// The time to sleep, in milliseconds, from `now_millis` until the second
/// `fire_secs`: the difference, and nothing where the fire time is not ahead.
/// A difference beyond `u64` is cut to its maximum.
pub open spec fn sleep_millis(now_millis: i64, fire_secs: i64) -> u64 {
    let ahead = fire_secs as int * 1000 - now_millis as int;
    if ahead <= 0 {
        0
    } else if ahead >= u64::MAX as int {
        u64::MAX
    } else {
        ahead as u64
    }
}

/// Computes the whole second in which `now_millis` lies.
pub fn whole_second(now_millis: i64) -> (second: i64)
    ensures
        second == second_of(now_millis),
{
    if now_millis >= 0 {
        now_millis / 1000
    } else {
        let back: i64 = -(now_millis + 1);
        -(back / 1000) - 1
    }
}

/// Computes the time to sleep from `now_millis` until the second `fire_secs`.
pub fn sleep_until(now_millis: i64, fire_secs: i64) -> (millis: u64)
    ensures
        millis == sleep_millis(now_millis, fire_secs),
{
    let ahead: i128 = (fire_secs as i128) * 1000 - (now_millis as i128);
    if ahead <= 0 {
        0
    } else if ahead >= u64::MAX as i128 {
        u64::MAX
    } else {
        ahead as u64
    }
}

/// A cron expression that `cron` accepts.
pub struct FireSchedule {
    expression: String,
}

impl FireSchedule {
    #[verifier::type_invariant]
    spec fn accepted(self) -> bool {
        cron_accepts(self.expression@)
    }

    /// The expression that the schedule was made from.
    pub closed spec fn expression_text(self) -> Seq<char> {
        self.expression@
    }

    /// Makes a schedule from `expression`, if `cron` accepts it.
    pub fn new(expression: &str) -> (made: Result<FireSchedule, TaskError>)
        ensures
            made is Ok <==> cron_accepts(expression@),
            made matches Ok(schedule) ==> schedule.expression_text() == expression@,
            made matches Err(error) ==> error == TaskError::ScheduleCompute,
    {
        match cron_check(expression) {
            Ok(_) => Ok(FireSchedule { expression: String::from_str(expression) }),
            Err(_) => Err(TaskError::ScheduleCompute),
        }
    }

    /// Makes the schedule of every tenth minute.
    pub fn every_tenth_minute() -> (made: Result<FireSchedule, TaskError>)
        ensures
            made is Ok <==> cron_accepts(every_tenth_minute_text()),
            made matches Ok(schedule) ==> schedule.expression_text() == every_tenth_minute_text(),
            made matches Err(error) ==> error == TaskError::ScheduleCompute,
    {
        FireSchedule::new("0 */10 * * * *")
    }

    /// The expression of the schedule.
    pub fn expression(&self) -> (text: &str)
        ensures
            text@ == self.expression_text(),
    {
        self.expression.as_str()
    }

    /// The next fire time, in seconds since the epoch, for a clock that reads
    /// `now_millis` milliseconds since the epoch.
    pub fn next_fire(&self, now_millis: i64) -> (fire: Option<i64>)
        ensures
            fire == fire_after(self.expression_text(), now_millis),
    {
        proof {
            use_type_invariant(self);
        }
        let second = whole_second(now_millis);
        if -SECONDS_LIMIT <= second && second <= SECONDS_LIMIT {
            cron_first_after(self.expression.as_str(), second)
        } else {
            None
        }
    }
}

} // verus!
