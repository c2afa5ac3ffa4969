//! The life of the agent: register to start at login, run the task, read
//! the clock, sleep until the next fire time of the schedule, run the task
//! again, without end.
//!
//! Like the task, the loop is a value that says which step is due; the
//! caller performs it and reports back. A reply that does not answer the
//! step that is due changes nothing.

use vstd::prelude::*;
use crate::error::TaskError;
use crate::schedule::{fire_after, sleep_millis, sleep_until, FireSchedule};

verus! {

/// The shortest pause, in milliseconds, before the clock is read again after
/// no fire time could be computed.
pub const MIN_RETRY_MILLIS: u64 = 1000;

/// The step of the loop that is due.
#[derive(Clone, Copy, Debug, PartialEq, Eq)]
pub enum SchedulerStep {
    /// Register the agent to start at login. Answered by `Registered`.
    Register,
    /// Run the task to its end. Answered by `TaskDone`.
    RunTask,
    /// Read the clock. Answered by `Now`.
    ReadClock,
    /// Sleep this long, then the task is due. Answered by `Woke`.
    Sleep { millis: u64 },
    /// No fire time could be computed. Sleep this long, then the clock is
    /// read again. Answered by `Woke`.
    Backoff { millis: u64 },
    /// Nothing is due: the agent could not start and ends with this error.
    Stopped { error: TaskError },
}

/// What came of a step of the loop.
#[derive(Clone, Copy, Debug, PartialEq, Eq)]
pub enum SchedulerReply {
    /// The registration has ended, well or with this failure.
    Registered { failure: Option<TaskError> },
    /// The task has ended, well or with this failure.
    TaskDone { failure: Option<TaskError> },
    /// The clock reads this many milliseconds since the Unix epoch.
    Now { now_millis: i64 },
    /// The sleep is over.
    Woke,
}

/// The step that is due next, and what there is to report of the step that
/// has ended.
#[derive(Clone, Copy, Debug, PartialEq, Eq)]
pub struct Transition {
    pub next: SchedulerStep,
    pub report: Option<TaskError>,
}

/// Whether the task is in flight, the loop is waiting, or the agent has
/// ended.
#[derive(Clone, Copy, Debug, PartialEq, Eq)]
pub enum Phase {
    Idle,
    Running,
    Stopped,
}

/// The phase that a step belongs to.
pub open spec fn phase_of(step: SchedulerStep) -> Phase {
    match step {
        SchedulerStep::RunTask => Phase::Running,
        SchedulerStep::Stopped { .. } => Phase::Stopped,
        _ => Phase::Idle,
    }
}

/// The pause that is slept where `retry_millis` is asked for: that, but no
/// less than `MIN_RETRY_MILLIS`.
pub open spec fn retry_pause(retry_millis: u64) -> u64 {
    if retry_millis < MIN_RETRY_MILLIS {
        MIN_RETRY_MILLIS
    } else {
        retry_millis
    }
}

/// What follows the registration, given whether there is a schedule. A
/// failed registration ends the agent, and so does the lack of a schedule;
/// else the task runs at once.
pub open spec fn start_after(failure: Option<TaskError>, scheduled: bool) -> Transition {
    match failure {
        Some(error) => Transition { next: SchedulerStep::Stopped { error }, report: Some(error) },
        None => if scheduled {
            Transition { next: SchedulerStep::RunTask, report: None }
        } else {
            Transition {
                next: SchedulerStep::Stopped { error: TaskError::ScheduleCompute },
                report: Some(TaskError::ScheduleCompute),
            }
        },
    }
}

/// What follows a reading of the clock, given the fire time found for it:
/// with a fire time, the sleep until then; without one, a report of
/// `ScheduleCompute` and a pause, never of zero length, before the next
/// attempt.
pub open spec fn wait_for(fire: Option<i64>, now_millis: i64, retry_millis: u64) -> Transition {
    match fire {
        Some(fire_secs) => Transition {
            next: SchedulerStep::Sleep { millis: sleep_millis(now_millis, fire_secs) },
            report: None,
        },
        None => Transition {
            next: SchedulerStep::Backoff { millis: retry_pause(retry_millis) },
            report: Some(TaskError::ScheduleCompute),
        },
    }
}

/// The transition of a loop that stands at `step` when `reply` comes in,
/// on the schedule written `expression`, if there is one. The end of the
/// task, however it ended, leads on to the clock; its failure is reported
/// and nothing more.
pub open spec fn scheduler_next(
    expression: Option<Seq<char>>,
    retry_millis: u64,
    step: SchedulerStep,
    reply: SchedulerReply,
) -> Transition {
    match step {
        SchedulerStep::Register => match reply {
            SchedulerReply::Registered { failure } => start_after(failure, expression is Some),
            _ => Transition { next: step, report: None },
        },
        SchedulerStep::RunTask => match reply {
            SchedulerReply::TaskDone { failure } => Transition {
                next: SchedulerStep::ReadClock,
                report: failure,
            },
            _ => Transition { next: step, report: None },
        },
        SchedulerStep::ReadClock => match reply {
            SchedulerReply::Now { now_millis } => match expression {
                Some(text) => wait_for(fire_after(text, now_millis), now_millis, retry_millis),
                None => wait_for(None, now_millis, retry_millis),
            },
            _ => Transition { next: step, report: None },
        },
        SchedulerStep::Sleep { .. } => match reply {
            SchedulerReply::Woke => Transition { next: SchedulerStep::RunTask, report: None },
            _ => Transition { next: step, report: None },
        },
        SchedulerStep::Backoff { .. } => match reply {
            SchedulerReply::Woke => Transition { next: SchedulerStep::ReadClock, report: None },
            _ => Transition { next: step, report: None },
        },
        SchedulerStep::Stopped { .. } => Transition { next: step, report: None },
    }
}

/// The text of a schedule that may be missing.
pub open spec fn expression_of(schedule: Option<&FireSchedule>) -> Option<Seq<char>> {
    match schedule {
        Some(schedule) => Some(schedule.expression_text()),
        None => None,
    }
}

/// The step an agent starts with: the registration.
pub fn first_step() -> (step: SchedulerStep)
    ensures
        step == SchedulerStep::Register,
{
    SchedulerStep::Register
}

/// Tells the phase that a step belongs to.
pub fn phase(step: SchedulerStep) -> (phase: Phase)
    ensures
        phase == phase_of(step),
{
    match step {
        SchedulerStep::RunTask => Phase::Running,
        SchedulerStep::Stopped { .. } => Phase::Stopped,
        _ => Phase::Idle,
    }
}

/// Decides what follows the registration, given whether there is a schedule.
pub fn plan_start(failure: Option<TaskError>, scheduled: bool) -> (transition: Transition)
    ensures
        transition == start_after(failure, scheduled),
{
    match failure {
        Some(error) => Transition { next: SchedulerStep::Stopped { error }, report: Some(error) },
        None => if scheduled {
            Transition { next: SchedulerStep::RunTask, report: None }
        } else {
            Transition {
                next: SchedulerStep::Stopped { error: TaskError::ScheduleCompute },
                report: Some(TaskError::ScheduleCompute),
            }
        },
    }
}

/// Decides what follows a reading of the clock, given the fire time found
/// for it.
pub fn plan_wait(fire: Option<i64>, now_millis: i64, retry_millis: u64) -> (transition: Transition)
    ensures
        transition == wait_for(fire, now_millis, retry_millis),
{
    match fire {
        Some(fire_secs) => Transition {
            next: SchedulerStep::Sleep { millis: sleep_until(now_millis, fire_secs) },
            report: None,
        },
        None => {
            let millis = if retry_millis < MIN_RETRY_MILLIS {
                MIN_RETRY_MILLIS
            } else {
                retry_millis
            };
            Transition {
                next: SchedulerStep::Backoff { millis },
                report: Some(TaskError::ScheduleCompute),
            }
        },
    }
}

/// Takes the loop from the step that is due to the next one, given what came
/// of the step. `schedule` is the schedule to run on, or `None` where none
/// could be made; `retry_millis` is the pause asked for after a fire time
/// could not be computed.
pub fn advance_loop(
    schedule: Option<&FireSchedule>,
    retry_millis: u64,
    step: SchedulerStep,
    reply: SchedulerReply,
) -> (transition: Transition)
    ensures
        transition == scheduler_next(expression_of(schedule), retry_millis, step, reply),
{
    match step {
        SchedulerStep::Register => match reply {
            SchedulerReply::Registered { failure } => plan_start(failure, schedule.is_some()),
            _ => Transition { next: step, report: None },
        },
        SchedulerStep::RunTask => match reply {
            SchedulerReply::TaskDone { failure } => Transition {
                next: SchedulerStep::ReadClock,
                report: failure,
            },
            _ => Transition { next: step, report: None },
        },
        SchedulerStep::ReadClock => match reply {
            SchedulerReply::Now { now_millis } => {
                let fire = match schedule {
                    Some(schedule) => schedule.next_fire(now_millis),
                    None => None,
                };
                plan_wait(fire, now_millis, retry_millis)
            },
            _ => Transition { next: step, report: None },
        },
        SchedulerStep::Sleep { .. } => match reply {
            SchedulerReply::Woke => Transition { next: SchedulerStep::RunTask, report: None },
            _ => Transition { next: step, report: None },
        },
        SchedulerStep::Backoff { .. } => match reply {
            SchedulerReply::Woke => Transition { next: SchedulerStep::ReadClock, report: None },
            _ => Transition { next: step, report: None },
        },
        SchedulerStep::Stopped { .. } => Transition { next: step, report: None },
    }
}

/// The loop changes phase in these ways only. It enters `Running` when the
/// registration has ended well and there is a schedule, and when the sleep
/// until a fire time is over. It leaves `Running` when the task is reported
/// done, whether it failed or not, and then waits. It stops when the
/// registration has failed or there is no schedule, and at no later step;
/// once stopped it stays so.
pub proof fn lemma_phase_changes(
    expression: Option<Seq<char>>,
    retry_millis: u64,
    step: SchedulerStep,
    reply: SchedulerReply,
)
    ensures
        ({
            let next = scheduler_next(expression, retry_millis, step, reply).next;
            &&& phase_of(step) == Phase::Running ==> (if reply is TaskDone {
                next == SchedulerStep::ReadClock
            } else {
                next == step
            })
            &&& phase_of(step) == Phase::Idle && phase_of(next) == Phase::Running ==> (step
                is Sleep && reply is Woke) || (step is Register && expression is Some && (
            reply matches SchedulerReply::Registered { failure } && failure is None))
            &&& step is Sleep && reply is Woke ==> next == SchedulerStep::RunTask
            &&& phase_of(step) != Phase::Stopped && phase_of(next) == Phase::Stopped ==> step
                is Register && reply is Registered
            &&& phase_of(step) == Phase::Stopped ==> next == step
        }),
{
}

/// A registration that fails ends the agent with its error before the task
/// has run once.
pub proof fn lemma_failed_registration_stops(
    expression: Option<Seq<char>>,
    retry_millis: u64,
    error: TaskError,
)
    ensures
        scheduler_next(
            expression,
            retry_millis,
            SchedulerStep::Register,
            SchedulerReply::Registered { failure: Some(error) },
        ) == (Transition { next: SchedulerStep::Stopped { error }, report: Some(error) }),
{
}

/// The pause after a fire time could not be computed is never shorter than
/// `MIN_RETRY_MILLIS`, and the step after it reads the clock: the task does
/// not run for it.
pub proof fn lemma_backoff_is_slept(
    expression: Option<Seq<char>>,
    retry_millis: u64,
    step: SchedulerStep,
    reply: SchedulerReply,
)
    ensures
        scheduler_next(expression, retry_millis, step, reply).next matches SchedulerStep::Backoff {
            millis,
        } ==> millis >= MIN_RETRY_MILLIS || step is Backoff,
        step is Backoff && reply is Woke ==> scheduler_next(
            expression,
            retry_millis,
            step,
            reply,
        ).next == SchedulerStep::ReadClock,
{
}

} // verus!
