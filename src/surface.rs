//! Surface sizing and the per-frame decision that follows an image acquisition.
use vstd::prelude::*;

verus! {

/// A surface dimension as configured: a requested size of zero becomes one.
pub open spec fn clamp_dim(d: u32) -> u32 {
    if d == 0 {
        1
    } else {
        d
    }
}

/// The size, in pixels, at which the presentable surface is configured.
#[derive(Debug, Clone, Copy, PartialEq, Eq, Structural)]
pub struct SurfaceExtent {
    pub width: u32,
    pub height: u32,
}

impl SurfaceExtent {
    /// Both dimensions are at least one.
    pub open spec fn wf(self) -> bool {
        self.width >= 1 && self.height >= 1
    }

    /// The extent configured for a requested size.
    pub open spec fn for_size(width: u32, height: u32) -> SurfaceExtent {
        SurfaceExtent { width: clamp_dim(width), height: clamp_dim(height) }
    }

    /// The extent after a resize to the requested size; it keeps nothing of the old one.
    pub open spec fn resized(self, width: u32, height: u32) -> SurfaceExtent {
        Self::for_size(width, height)
    }

    /// Creates the extent for a requested size, each dimension floored at one.
    pub fn new(width: u32, height: u32) -> (r: SurfaceExtent)
        ensures
            r == Self::for_size(width, height),
            r.wf(),
    {
        SurfaceExtent {
            width: if width == 0 {
                1
            } else {
                width
            },
            height: if height == 0 {
                1
            } else {
                height
            },
        }
    }

    /// Changes the extent to a requested size, each dimension floored at one.
    pub fn resize(&mut self, width: u32, height: u32)
        ensures
            *final(self) == old(self).resized(width, height),
            final(self).wf(),
    {
        *self = Self::new(width, height);
    }
}

/// Resizing twice in a row to the same size gives the same extent as resizing once.
pub proof fn lemma_resize_idempotent(extent: SurfaceExtent, width: u32, height: u32)
    ensures
        extent.resized(width, height).resized(width, height) == extent.resized(width, height),
{
}

/// What came of asking the surface for its next image.
#[derive(Debug, Clone, Copy, PartialEq, Eq, Structural)]
pub enum SurfaceStatus {
    /// An image was handed out.
    Acquired,
    /// No image became available in time.
    Timeout,
    /// The surface changed and must be configured again.
    Outdated,
    /// The surface was lost and must be configured again.
    Lost,
    /// No memory was left for a new image.
    OutOfMemory,
    /// Acquisition failed for another reason.
    Other,
}

/// What the frame driver does with the outcome of an acquisition.
#[derive(Debug, Clone, Copy, PartialEq, Eq, Structural)]
pub enum FrameAction {
    /// Record the render pass into the image, submit it once and present it.
    Draw,
    /// Configure the surface again at its current extent and draw nothing this frame.
    ReconfigureAndSkip,
    /// No further frame can be produced.
    Abort,
}

/// The action that follows each acquisition outcome.
pub open spec fn action_for(status: SurfaceStatus) -> FrameAction {
    match status {
        SurfaceStatus::Acquired => FrameAction::Draw,
        SurfaceStatus::Lost | SurfaceStatus::Outdated => FrameAction::ReconfigureAndSkip,
        _ => FrameAction::Abort,
    }
}

/// Decides how a frame goes on: draw on success, reconfigure and skip the frame
/// when the surface was lost or is outdated, abort on any other failure.
pub fn frame_action(status: SurfaceStatus) -> (r: FrameAction)
    ensures
        r == action_for(status),
{
    match status {
        SurfaceStatus::Acquired => FrameAction::Draw,
        SurfaceStatus::Lost | SurfaceStatus::Outdated => FrameAction::ReconfigureAndSkip,
        _ => FrameAction::Abort,
    }
}

/// Picks the surface format among those the surface supports, given whether each
/// is sRGB: the first sRGB one, else the first one, and none when the list is empty.
pub fn preferred_format(is_srgb: &Vec<bool>) -> (r: Option<usize>)
    ensures
        is_srgb@.len() == 0 <==> r is None,
        r matches Some(i) ==> i < is_srgb@.len(),
        r matches Some(i) ==> (is_srgb@[i as int] || i == 0),
        r matches Some(i) ==> forall|j: int| 0 <= j < i ==> !is_srgb@[j],
        r matches Some(i) ==> (!is_srgb@[i as int] ==> forall|j: int|
            0 <= j < is_srgb@.len() ==> !is_srgb@[j]),
{
    let n = is_srgb.len();
    let mut i: usize = 0;
    while i < n
        invariant
            n == is_srgb@.len(),
            i <= n,
            forall|j: int| 0 <= j < i ==> !is_srgb@[j],
        decreases n - i,
    {
        if is_srgb[i] {
            return Some(i);
        }
        i += 1;
    }
    if n == 0 {
        None
    } else {
        Some(0)
    }
}

} // verus!
