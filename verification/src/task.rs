//! One run of the agent's task, from asking the display for its size to
//! handing the day's image to the desktop shell.
//!
//! The task does nothing to the outside world itself. It is a value that
//! says which step is due; the caller performs that step and reports what
//! came of it; `advance` then says which step is due next. A reply that does
//! not answer the step that is due changes nothing.

use vstd::prelude::*;
use vstd::string::*;
use crate::cache::{cache_file_name, cache_file_name_text};
use crate::error::TaskError;
use crate::metadata::{body_metadata, parse_metadata, MetadataView, WallpaperMetadata};
use crate::resolution::{display_mode_outcome, resolution_from_mode, Resolution};
use crate::url::{image_url, image_url_text, is_absolute_url, url_accepts};
use crate::wide::{to_wide_null, wide_null};

verus! {

/// What to fetch and under which name to keep it.
#[derive(Debug, PartialEq, Eq)]
pub struct FetchPlan {
    pub image_url: String,
    pub file_name: String,
}

/// The contents of a `FetchPlan`.
pub struct FetchPlanView {
    pub image_url: Seq<char>,
    pub file_name: Seq<char>,
}

impl View for FetchPlan {
    type V = FetchPlanView;

    open spec fn view(&self) -> FetchPlanView {
        FetchPlanView { image_url: self.image_url@, file_name: self.file_name@ }
    }
}

/// The step that is due. Each names what the caller has to do and which
/// reply answers it.
#[derive(Debug, PartialEq, Eq)]
pub enum TaskStep {
    /// Ask the operating system for the current mode of the primary display.
    /// Answered by `DisplayMode`.
    QueryDisplay,
    /// GET the metadata endpoint. Answered by `MetadataResponse` or
    /// `MetadataFailed`.
    FetchMetadata { resolution: Resolution },
    /// Make sure that the cache directory exists, with its parents. Answered
    /// by `CacheDir`.
    EnsureCacheDir { plan: FetchPlan },
    /// Look whether the cache holds a file of the plan's name. Answered by
    /// `CacheProbe`. Where it holds none, the image is downloaded, unless the
    /// plan's address is no URL.
    ProbeCache { plan: FetchPlan },
    /// GET the plan's image and write it to the cache under the plan's name.
    /// Answered by `DownloadEnded`.
    Download { plan: FetchPlan },
    /// Look whether the cache file of this name exists. Answered by
    /// `FileCheck`.
    CheckFile { file_name: String },
    /// Resolve the cache file of this name to its absolute, canonical path.
    /// Answered by `PathResolved`.
    ResolvePath { file_name: String },
    /// Tell the desktop shell to show the file at this zero-terminated wide
    /// path, and to remember it. Answered by `WallpaperSet`.
    SetWallpaper { wide_path: Vec<u16> },
    /// Nothing is due: the task has ended, well or with this failure.
    Done { failure: Option<TaskError> },
}

/// The contents of a `TaskStep`.
pub enum TaskStepView {
    QueryDisplay,
    FetchMetadata { resolution: Resolution },
    EnsureCacheDir { plan: FetchPlanView },
    ProbeCache { plan: FetchPlanView },
    Download { plan: FetchPlanView },
    CheckFile { file_name: Seq<char> },
    ResolvePath { file_name: Seq<char> },
    SetWallpaper { wide_path: Seq<u16> },
    Done { failure: Option<TaskError> },
}

impl View for TaskStep {
    type V = TaskStepView;

    open spec fn view(&self) -> TaskStepView {
        match self {
            TaskStep::QueryDisplay => TaskStepView::QueryDisplay,
            TaskStep::FetchMetadata { resolution } => TaskStepView::FetchMetadata {
                resolution: *resolution,
            },
            TaskStep::EnsureCacheDir { plan } => TaskStepView::EnsureCacheDir { plan: plan@ },
            TaskStep::ProbeCache { plan } => TaskStepView::ProbeCache { plan: plan@ },
            TaskStep::Download { plan } => TaskStepView::Download { plan: plan@ },
            TaskStep::CheckFile { file_name } => TaskStepView::CheckFile { file_name: file_name@ },
            TaskStep::ResolvePath { file_name } => TaskStepView::ResolvePath {
                file_name: file_name@,
            },
            TaskStep::SetWallpaper { wide_path } => TaskStepView::SetWallpaper {
                wide_path: wide_path@,
            },
            TaskStep::Done { failure } => TaskStepView::Done { failure: *failure },
        }
    }
}

/// How a download ended.
#[derive(Clone, Copy, Debug, PartialEq, Eq)]
pub enum DownloadOutcome {
    /// The image is in the cache file.
    Saved,
    /// The image could not be fetched.
    NetworkFailed,
    /// The image could not be written.
    WriteFailed,
}

/// What came of a step.
#[derive(Debug, PartialEq, Eq)]
pub enum TaskReply {
    /// The status that the display query returned, zero for failure, and the
    /// two sizes of the mode it filled in.
    DisplayMode { status: i32, width: u32, height: u32 },
    /// The metadata endpoint answered with this HTTP status and body.
    MetadataResponse { http_status: u16, body: Vec<u8> },
    /// The metadata endpoint could not be reached.
    MetadataFailed,
    /// Whether the cache directory now exists.
    CacheDir { ready: bool },
    /// Whether the cache file exists.
    CacheProbe { exists: bool },
    /// How the download ended.
    DownloadEnded { outcome: DownloadOutcome },
    /// Whether the file to show exists.
    FileCheck { exists: bool },
    /// The absolute path of the file to show, or `None` where it could not
    /// be resolved.
    PathResolved { path: Option<String> },
    /// The status that the desktop shell returned, zero for failure.
    WallpaperSet { status: i32 },
}

/// Whether an HTTP status stands for success: the 2xx range.
pub open spec fn http_success(status: u16) -> bool {
    200 <= status <= 299
}

/// The plan for an image described by `metadata` on a display of size
/// `resolution`.
pub open spec fn fetch_plan(metadata: MetadataView, resolution: Resolution) -> FetchPlanView {
    FetchPlanView {
        image_url: image_url_text(metadata.urlbase, resolution),
        file_name: cache_file_name_text(metadata.fullstartdate),
    }
}

/// The step after a metadata response: a status outside 2xx is a failed
/// fetch; a body that yields no metadata is a parse error; anything else
/// gives the plan and leads on to the cache.
pub open spec fn metadata_step(resolution: Resolution, http_status: u16, body: Seq<u8>) -> TaskStepView {
    if !http_success(http_status) {
        TaskStepView::Done { failure: Some(TaskError::MetadataFetch) }
    } else {
        match body_metadata(body) {
            Ok(metadata) => TaskStepView::EnsureCacheDir { plan: fetch_plan(metadata, resolution) },
            Err(error) => TaskStepView::Done { failure: Some(error) },
        }
    }
}

/// The step after the cache was probed, given whether the plan's address is
/// a URL: a file that is there is shown as it is; one that is missing is
/// downloaded; an address that cannot be asked for is a failed download.
pub open spec fn probe_step(plan: FetchPlanView, present: bool, accepted: bool) -> TaskStepView {
    if present {
        TaskStepView::CheckFile { file_name: plan.file_name }
    } else if accepted {
        TaskStepView::Download { plan }
    } else {
        TaskStepView::Done { failure: Some(TaskError::Download) }
    }
}

/// The step after `step` when `reply` comes in.
pub open spec fn task_next(step: TaskStepView, reply: TaskReply) -> TaskStepView {
    match step {
        TaskStepView::QueryDisplay => match reply {
            TaskReply::DisplayMode { status, width, height } => match display_mode_outcome(
                status,
                width,
                height,
            ) {
                Ok(resolution) => TaskStepView::FetchMetadata { resolution },
                Err(error) => TaskStepView::Done { failure: Some(error) },
            },
            _ => step,
        },
        TaskStepView::FetchMetadata { resolution } => match reply {
            TaskReply::MetadataFailed => TaskStepView::Done {
                failure: Some(TaskError::MetadataFetch),
            },
            TaskReply::MetadataResponse { http_status, body } => metadata_step(
                resolution,
                http_status,
                body@,
            ),
            _ => step,
        },
        TaskStepView::EnsureCacheDir { plan } => match reply {
            TaskReply::CacheDir { ready } => if ready {
                TaskStepView::ProbeCache { plan }
            } else {
                TaskStepView::Done { failure: Some(TaskError::CacheDir) }
            },
            _ => step,
        },
        TaskStepView::ProbeCache { plan } => match reply {
            TaskReply::CacheProbe { exists } => probe_step(
                plan,
                exists,
                url_accepts(plan.image_url),
            ),
            _ => step,
        },
        TaskStepView::Download { plan } => match reply {
            TaskReply::DownloadEnded { outcome } => match outcome {
                DownloadOutcome::Saved => TaskStepView::CheckFile { file_name: plan.file_name },
                DownloadOutcome::NetworkFailed => TaskStepView::Done {
                    failure: Some(TaskError::Download),
                },
                DownloadOutcome::WriteFailed => TaskStepView::Done {
                    failure: Some(TaskError::ImageWrite),
                },
            },
            _ => step,
        },
        TaskStepView::CheckFile { file_name } => match reply {
            TaskReply::FileCheck { exists } => if exists {
                TaskStepView::ResolvePath { file_name }
            } else {
                TaskStepView::Done { failure: Some(TaskError::FileNotFound) }
            },
            _ => step,
        },
        TaskStepView::ResolvePath { file_name } => match reply {
            TaskReply::PathResolved { path } => match path {
                Some(absolute) => TaskStepView::SetWallpaper { wide_path: wide_null(absolute@) },
                None => TaskStepView::Done { failure: Some(TaskError::WallpaperApply) },
            },
            _ => step,
        },
        TaskStepView::SetWallpaper { .. } => match reply {
            TaskReply::WallpaperSet { status } => if status != 0 {
                TaskStepView::Done { failure: None }
            } else {
                TaskStepView::Done { failure: Some(TaskError::WallpaperApply) }
            },
            _ => step,
        },
        TaskStepView::Done { .. } => step,
    }
}

/// The step a task starts with.
pub fn start() -> (step: TaskStep)
    ensures
        step@ == TaskStepView::QueryDisplay,
{
    TaskStep::QueryDisplay
}

/// Tells whether an HTTP status stands for success.
pub fn is_http_success(status: u16) -> (success: bool)
    ensures
        success == http_success(status),
{
    200 <= status && status <= 299
}

/// Makes the plan for an image described by `metadata` on a display of size
/// `resolution`.
pub fn plan_fetch(metadata: &WallpaperMetadata, resolution: Resolution) -> (plan: FetchPlan)
    ensures
        plan@ == fetch_plan(metadata@, resolution),
{
    FetchPlan {
        image_url: image_url(metadata.urlbase.as_str(), resolution),
        file_name: cache_file_name(metadata.fullstartdate.as_str()),
    }
}

/// Takes a metadata response to the step that follows it.
pub fn after_metadata(resolution: Resolution, http_status: u16, body: &[u8]) -> (next: TaskStep)
    ensures
        next@ == metadata_step(resolution, http_status, body@),
{
    if !is_http_success(http_status) {
        TaskStep::Done { failure: Some(TaskError::MetadataFetch) }
    } else {
        match parse_metadata(body) {
            Ok(metadata) => TaskStep::EnsureCacheDir { plan: plan_fetch(&metadata, resolution) },
            Err(error) => TaskStep::Done { failure: Some(error) },
        }
    }
}

/// Takes a probe of the cache to the step that follows it, given whether the
/// plan's address is a URL.
pub fn after_probe(plan: FetchPlan, present: bool, accepted: bool) -> (next: TaskStep)
    ensures
        next@ == probe_step(plan@, present, accepted),
{
    if present {
        TaskStep::CheckFile { file_name: plan.file_name }
    } else if accepted {
        TaskStep::Download { plan }
    } else {
        TaskStep::Done { failure: Some(TaskError::Download) }
    }
}

/// Takes the task from the step that is due to the next one, given what came
/// of the step.
pub fn advance(step: TaskStep, reply: TaskReply) -> (next: TaskStep)
    ensures
        next@ == task_next(step@, reply),
{
    match step {
        TaskStep::QueryDisplay => match reply {
            TaskReply::DisplayMode { status, width, height } => match resolution_from_mode(
                status,
                width,
                height,
            ) {
                Ok(resolution) => TaskStep::FetchMetadata { resolution },
                Err(error) => TaskStep::Done { failure: Some(error) },
            },
            _ => TaskStep::QueryDisplay,
        },
        TaskStep::FetchMetadata { resolution } => match reply {
            TaskReply::MetadataFailed => TaskStep::Done { failure: Some(TaskError::MetadataFetch) },
            TaskReply::MetadataResponse { http_status, body } => after_metadata(
                resolution,
                http_status,
                body.as_slice(),
            ),
            _ => TaskStep::FetchMetadata { resolution },
        },
        TaskStep::EnsureCacheDir { plan } => match reply {
            TaskReply::CacheDir { ready } => if ready {
                TaskStep::ProbeCache { plan }
            } else {
                TaskStep::Done { failure: Some(TaskError::CacheDir) }
            },
            _ => TaskStep::EnsureCacheDir { plan },
        },
        TaskStep::ProbeCache { plan } => match reply {
            TaskReply::CacheProbe { exists: present } => {
                let accepted = if present {
                    true
                } else {
                    is_absolute_url(plan.image_url.as_str())
                };
                after_probe(plan, present, accepted)
            },
            _ => TaskStep::ProbeCache { plan },
        },
        TaskStep::Download { plan } => match reply {
            TaskReply::DownloadEnded { outcome } => match outcome {
                DownloadOutcome::Saved => TaskStep::CheckFile { file_name: plan.file_name },
                DownloadOutcome::NetworkFailed => TaskStep::Done {
                    failure: Some(TaskError::Download),
                },
                DownloadOutcome::WriteFailed => TaskStep::Done {
                    failure: Some(TaskError::ImageWrite),
                },
            },
            _ => TaskStep::Download { plan },
        },
        TaskStep::CheckFile { file_name } => match reply {
            TaskReply::FileCheck { exists } => if exists {
                TaskStep::ResolvePath { file_name }
            } else {
                TaskStep::Done { failure: Some(TaskError::FileNotFound) }
            },
            _ => TaskStep::CheckFile { file_name },
        },
        TaskStep::ResolvePath { file_name } => match reply {
            TaskReply::PathResolved { path } => match path {
                Some(absolute) => TaskStep::SetWallpaper {
                    wide_path: to_wide_null(absolute.as_str()),
                },
                None => TaskStep::Done { failure: Some(TaskError::WallpaperApply) },
            },
            _ => TaskStep::ResolvePath { file_name },
        },
        TaskStep::SetWallpaper { wide_path } => match reply {
            TaskReply::WallpaperSet { status } => if status != 0 {
                TaskStep::Done { failure: None }
            } else {
                TaskStep::Done { failure: Some(TaskError::WallpaperApply) }
            },
            _ => TaskStep::SetWallpaper { wide_path },
        },
        TaskStep::Done { failure } => TaskStep::Done { failure },
    }
}

} // verus!
