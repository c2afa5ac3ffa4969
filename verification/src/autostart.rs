//! Registering the agent to start at login: find the running executable,
//! open the user's autorun key, write the executable's path under the
//! agent's name.
//!
//! The registration is a value that says which step is due; the caller
//! performs it and reports back. A reply that does not answer the step that
//! is due changes nothing.

use vstd::prelude::*;
use vstd::string::*;
use crate::error::TaskError;

verus! {

/// The autorun key, below the current user's root.
pub open spec fn run_key_text() -> Seq<char> {
    "Software\\Microsoft\\Windows\\CurrentVersion\\Run"@
}

/// The name of the agent's value in the autorun key.
pub open spec fn value_name_text() -> Seq<char> {
    "BingWallpaper"@
}

/// The step of the registration that is due.
#[derive(Debug, PartialEq, Eq)]
pub enum AutostartStep {
    /// Find the absolute path of the running executable. Answered by
    /// `Executable`.
    FindExecutable,
    /// Open the autorun key, which has to exist, for writing. Answered by
    /// `KeyOpened`.
    OpenRunKey { executable: String },
    /// Set the agent's value in the autorun key to this path, over whatever
    /// it held. Answered by `ValueWritten`.
    WriteValue { executable: String },
    /// Nothing is due: the registration has ended, well or with this
    /// failure.
    Done { failure: Option<TaskError> },
}

/// The contents of an `AutostartStep`.
pub enum AutostartStepView {
    FindExecutable,
    OpenRunKey { executable: Seq<char> },
    WriteValue { executable: Seq<char> },
    Done { failure: Option<TaskError> },
}

impl View for AutostartStep {
    type V = AutostartStepView;

    open spec fn view(&self) -> AutostartStepView {
        match self {
            AutostartStep::FindExecutable => AutostartStepView::FindExecutable,
            AutostartStep::OpenRunKey { executable } => AutostartStepView::OpenRunKey {
                executable: executable@,
            },
            AutostartStep::WriteValue { executable } => AutostartStepView::WriteValue {
                executable: executable@,
            },
            AutostartStep::Done { failure } => AutostartStepView::Done { failure: *failure },
        }
    }
}

/// What came of a step of the registration.
#[derive(Debug, PartialEq, Eq)]
pub enum AutostartReply {
    /// The path of the running executable, or `None` where it could not be
    /// determined or is no text.
    Executable { path: Option<String> },
    /// Whether the autorun key is open for writing.
    KeyOpened { opened: bool },
    /// Whether the value was written.
    ValueWritten { written: bool },
}

/// The step after `step` when `reply` comes in.
pub open spec fn autostart_next(step: AutostartStepView, reply: AutostartReply) -> AutostartStepView {
    match step {
        AutostartStepView::FindExecutable => match reply {
            AutostartReply::Executable { path } => match path {
                Some(executable) => AutostartStepView::OpenRunKey { executable: executable@ },
                None => AutostartStepView::Done { failure: Some(TaskError::SelfPath) },
            },
            _ => step,
        },
        AutostartStepView::OpenRunKey { executable } => match reply {
            AutostartReply::KeyOpened { opened } => if opened {
                AutostartStepView::WriteValue { executable }
            } else {
                AutostartStepView::Done { failure: Some(TaskError::RegistryOpen) }
            },
            _ => step,
        },
        AutostartStepView::WriteValue { executable } => match reply {
            AutostartReply::ValueWritten { written } => if written {
                AutostartStepView::Done { failure: None }
            } else {
                AutostartStepView::Done { failure: Some(TaskError::RegistryWrite) }
            },
            _ => step,
        },
        AutostartStepView::Done { .. } => step,
    }
}

/// The autorun key, below the current user's root.
pub fn run_key() -> (key: String)
    ensures
        key@ == run_key_text(),
{
    String::from_str("Software\\Microsoft\\Windows\\CurrentVersion\\Run")
}

/// The name of the agent's value in the autorun key.
pub fn value_name() -> (name: String)
    ensures
        name@ == value_name_text(),
{
    String::from_str("BingWallpaper")
}

/// The step a registration starts with.
pub fn begin() -> (step: AutostartStep)
    ensures
        step@ == AutostartStepView::FindExecutable,
{
    AutostartStep::FindExecutable
}

/// Takes the registration from the step that is due to the next one, given
/// what came of the step.
pub fn advance_autostart(step: AutostartStep, reply: AutostartReply) -> (next: AutostartStep)
    ensures
        next@ == autostart_next(step@, reply),
{
    match step {
        AutostartStep::FindExecutable => match reply {
            AutostartReply::Executable { path } => match path {
                Some(executable) => AutostartStep::OpenRunKey { executable },
                None => AutostartStep::Done { failure: Some(TaskError::SelfPath) },
            },
            _ => AutostartStep::FindExecutable,
        },
        AutostartStep::OpenRunKey { executable } => match reply {
            AutostartReply::KeyOpened { opened } => if opened {
                AutostartStep::WriteValue { executable }
            } else {
                AutostartStep::Done { failure: Some(TaskError::RegistryOpen) }
            },
            _ => AutostartStep::OpenRunKey { executable },
        },
        AutostartStep::WriteValue { executable } => match reply {
            AutostartReply::ValueWritten { written } => if written {
                AutostartStep::Done { failure: None }
            } else {
                AutostartStep::Done { failure: Some(TaskError::RegistryWrite) }
            },
            _ => AutostartStep::WriteValue { executable },
        },
        AutostartStep::Done { failure } => AutostartStep::Done { failure },
    }
}

} // verus!
