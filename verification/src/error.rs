//! The ways in which a step of the agent can fail.

use vstd::prelude::*;

verus! {

/// Why a step failed. Each kind belongs to exactly one step.
#[derive(Clone, Copy, Debug, PartialEq, Eq, Structural)]
pub enum TaskError {
    /// The operating system could not report the current display mode.
    DisplayQuery,
    /// The metadata endpoint could not be reached or answered outside 2xx.
    MetadataFetch,
    /// The metadata body is not JSON or describes no image.
    MetadataParse,
    /// The cache directory could not be found or created.
    CacheDir,
    /// The image could not be fetched over the network.
    Download,
    /// The image could not be written to the cache file.
    ImageWrite,
    /// The file to show as wallpaper does not exist.
    FileNotFound,
    /// The desktop shell refused the wallpaper.
    WallpaperApply,
    /// The autorun key could not be opened for writing.
    RegistryOpen,
    /// The autorun value could not be written.
    RegistryWrite,
    /// The path of the running executable could not be determined.
    SelfPath,
    /// No next fire time could be computed from the schedule.
    ScheduleCompute,
}

} // verus!
