//! Whole runs of the task: what holds of the steps that come due, whatever
//! the replies.

use vstd::prelude::*;
use crate::cache::cache_file_name_text;
use crate::error::TaskError;
use crate::json::{json_document, Json};
use crate::metadata::{first_image, text_field, MetadataView};
use crate::resolution::{display_mode_outcome, Resolution};
use crate::task::{
    fetch_plan, http_success, task_next, DownloadOutcome, FetchPlanView, TaskReply, TaskStepView,
};
use crate::url::{image_url_text, url_accepts};

verus! {

/// The step that is due once `replies` have come in, in their order, to a
/// task that stood at `step`.
pub open spec fn run_from(step: TaskStepView, replies: Seq<TaskReply>) -> TaskStepView
    decreases replies.len(),
{
    if replies.len() == 0 {
        step
    } else {
        task_next(run_from(step, replies.drop_last()), replies.last())
    }
}

/// One more reply takes a run one step further.
pub proof fn lemma_run_step(step: TaskStepView, replies: Seq<TaskReply>, n: int)
    requires
        0 < n <= replies.len(),
    ensures
        run_from(step, replies.take(n)) == task_next(
            run_from(step, replies.take(n - 1)),
            replies[n - 1],
        ),
{
    assert(replies.take(n).drop_last() =~= replies.take(n - 1));
}

/// A task that has ended stays as it is, whatever comes in.
pub proof fn lemma_done_is_final(failure: Option<TaskError>, replies: Seq<TaskReply>)
    ensures
        run_from(TaskStepView::Done { failure }, replies) == (TaskStepView::Done { failure }),
    decreases replies.len(),
{
    if replies.len() > 0 {
        lemma_done_is_final(failure, replies.drop_last());
    }
}

/// A run whose first reply ends the task stands at that end ever after.
pub proof fn lemma_ended_by_first_reply(
    step: TaskStepView,
    replies: Seq<TaskReply>,
    failure: Option<TaskError>,
)
    requires
        replies.len() >= 1,
        task_next(step, replies[0]) == (TaskStepView::Done { failure }),
    ensures
        run_from(step, replies) == (TaskStepView::Done { failure }),
    decreases replies.len(),
{
    let earlier = replies.drop_last();
    if replies.len() == 1 {
        assert(run_from(step, earlier) == step);
    } else {
        assert(earlier[0] == replies[0]);
        lemma_ended_by_first_reply(step, earlier, failure);
    }
}

/// Where the display query fails, be it by its status or by a size of zero,
/// the task ends with `DisplayQuery` at once and for good: after the first
/// reply and after every later one it is done, so neither a request to the
/// network nor the step that sets the wallpaper ever comes due.
pub proof fn lemma_failed_display_query_ends_task(replies: Seq<TaskReply>, n: int)
    requires
        1 <= n <= replies.len(),
        replies[0] matches TaskReply::DisplayMode { status, width, height }
            && display_mode_outcome(status, width, height) is Err,
    ensures
        run_from(TaskStepView::QueryDisplay, replies.take(n)) == (TaskStepView::Done {
            failure: Some(TaskError::DisplayQuery),
        }),
{
    lemma_ended_by_first_reply(
        TaskStepView::QueryDisplay,
        replies.take(n),
        Some(TaskError::DisplayQuery),
    );
}

/// Where the file to show does not exist, the task ends with `FileNotFound`
/// at once and for good: the step that sets the wallpaper never comes due.
pub proof fn lemma_missing_file_ends_task(file_name: Seq<char>, replies: Seq<TaskReply>, n: int)
    requires
        1 <= n <= replies.len(),
        replies[0] matches TaskReply::FileCheck { exists } && !exists,
    ensures
        run_from(TaskStepView::CheckFile { file_name }, replies.take(n)) == (TaskStepView::Done {
            failure: Some(TaskError::FileNotFound),
        }),
{
    lemma_ended_by_first_reply(
        TaskStepView::CheckFile { file_name },
        replies.take(n),
        Some(TaskError::FileNotFound),
    );
}

/// Whether, among the first `n` replies of a run from the start, one found
/// the task asking for the cache directory and told it that the directory
/// is there.
pub open spec fn cache_dir_made_before(replies: Seq<TaskReply>, n: int) -> bool {
    exists|j: int|
        0 <= j < n && #[trigger] run_from(TaskStepView::QueryDisplay, replies.take(j))
            is EnsureCacheDir && (replies[j] matches TaskReply::CacheDir { ready } && ready)
}

/// The cache is looked into, and an image written to it, only after the
/// cache directory was asked for and reported to exist.
pub proof fn lemma_cache_dir_comes_first(replies: Seq<TaskReply>, n: int)
    requires
        0 <= n <= replies.len(),
        run_from(TaskStepView::QueryDisplay, replies.take(n)) is ProbeCache || run_from(
            TaskStepView::QueryDisplay,
            replies.take(n),
        ) is Download,
    ensures
        cache_dir_made_before(replies, n),
    decreases n,
{
    let start = TaskStepView::QueryDisplay;
    if n == 0 {
        assert(replies.take(0) =~= Seq::<TaskReply>::empty());
    } else {
        lemma_run_step(start, replies, n);
        let before = run_from(start, replies.take(n - 1));
        if before is ProbeCache || before is Download {
            lemma_cache_dir_comes_first(replies, n - 1);
            let j = choose|j: int|
                0 <= j < n - 1 && #[trigger] run_from(start, replies.take(j)) is EnsureCacheDir && (
                replies[j] matches TaskReply::CacheDir { ready } && ready);
            assert(0 <= j < n && run_from(start, replies.take(j)) is EnsureCacheDir);
        } else {
            assert(before is EnsureCacheDir);
            assert(run_from(start, replies.take(n - 1)) is EnsureCacheDir);
        }
    }
}

/// What a fetch leaves behind: the names of the files in the cache, whether
/// the image was downloaded, and the step that is due at its end.
pub struct FetchRun {
    pub files: Set<Seq<char>>,
    pub downloaded: bool,
    pub end: TaskStepView,
}

/// The fetch of `plan` against a cache that holds `files`, in a world that
/// works: the cache directory can be made, the probe tells the truth, and a
/// download, where the task asks for one, puts the file into the cache. The
/// task asks for none where the file is there or the address is no URL.
pub open spec fn fetch_against(plan: FetchPlanView, files: Set<Seq<char>>) -> FetchRun {
    let probing = task_next(
        TaskStepView::EnsureCacheDir { plan },
        TaskReply::CacheDir { ready: true },
    );
    let probed = task_next(
        probing,
        TaskReply::CacheProbe { exists: files.contains(plan.file_name) },
    );
    if probed is Download {
        FetchRun {
            files: files.insert(plan.file_name),
            downloaded: true,
            end: task_next(probed, TaskReply::DownloadEnded { outcome: DownloadOutcome::Saved }),
        }
    } else {
        FetchRun { files, downloaded: false, end: probed }
    }
}

/// Fetching is idempotent in the date stamp. Of two fetches in a row for
/// images with the same date stamp, the first downloads exactly if the cache
/// file is not there yet and the image address is a URL; it fails only where
/// it would have to download and cannot. Once the first has ended well, the
/// second never downloads, leaves the cache as it found it, and ends with
/// the same file to show.
pub proof fn lemma_second_fetch_downloads_nothing(
    first: MetadataView,
    first_resolution: Resolution,
    second: MetadataView,
    second_resolution: Resolution,
    files: Set<Seq<char>>,
)
    requires
        first.fullstartdate == second.fullstartdate,
    ensures
        ({
            let file_name = cache_file_name_text(first.fullstartdate);
            let accepted = url_accepts(image_url_text(first.urlbase, first_resolution));
            let once = fetch_against(fetch_plan(first, first_resolution), files);
            let twice = fetch_against(fetch_plan(second, second_resolution), once.files);
            &&& once.downloaded == (!files.contains(file_name) && accepted)
            &&& once.end == (if files.contains(file_name) || accepted {
                TaskStepView::CheckFile { file_name }
            } else {
                TaskStepView::Done { failure: Some(TaskError::Download) }
            })
            &&& once.end is CheckFile ==> !twice.downloaded && twice.files == once.files
                && twice.end == once.end
        }),
{
}

/// A metadata response that succeeds and describes a first image with both
/// fields takes the task to the cache, with the image address built from the
/// path fragment and the display size, and the file named by the date stamp.
pub proof fn lemma_metadata_gives_image_url(
    resolution: Resolution,
    http_status: u16,
    body: Vec<u8>,
    document: Json,
    image: Json,
    urlbase: Seq<char>,
    fullstartdate: Seq<char>,
)
    requires
        http_success(http_status),
        json_document(body@) == Some(document),
        first_image(document) == Some(image),
        text_field(image, "urlbase"@) == Some(urlbase),
        text_field(image, "fullstartdate"@) == Some(fullstartdate),
    ensures
        task_next(
            TaskStepView::FetchMetadata { resolution },
            TaskReply::MetadataResponse { http_status, body },
        ) == (TaskStepView::EnsureCacheDir {
            plan: FetchPlanView {
                image_url: image_url_text(urlbase, resolution),
                file_name: cache_file_name_text(fullstartdate),
            },
        }),
{
}

} // verus!
