//! The pixel size of the primary display.

use vstd::prelude::*;
use crate::error::TaskError;

verus! {

/// Width and height of a display mode, in pixels. A display has at least one
/// pixel either way: see `Resolution::positive`.
#[derive(Clone, Copy, Debug, PartialEq, Eq, Structural)]
pub struct Resolution {
    pub width: u32,
    pub height: u32,
}

impl Resolution {
    /// Whether both sizes are above zero.
    pub open spec fn positive(self) -> bool {
        self.width > 0 && self.height > 0
    }
}

/// What a display-mode query means: the status the operating system returned
/// and the two sizes it wrote. A status of zero is its way of saying that the
/// query failed, whatever the sizes hold; a size of zero is no display mode,
/// whatever the status says.
pub open spec fn display_mode_outcome(status: i32, width: u32, height: u32) -> Result<
    Resolution,
    TaskError,
> {
    if status != 0 && width > 0 && height > 0 {
        Ok(Resolution { width, height })
    } else {
        Err(TaskError::DisplayQuery)
    }
}

/// Reads the answer of a display-mode query.
pub fn resolution_from_mode(status: i32, width: u32, height: u32) -> (outcome: Result<
    Resolution,
    TaskError,
>)
    ensures
        outcome == display_mode_outcome(status, width, height),
        outcome matches Ok(resolution) ==> resolution.positive(),
{
    if status != 0 && width > 0 && height > 0 {
        Ok(Resolution { width, height })
    } else {
        Err(TaskError::DisplayQuery)
    }
}

} // verus!
