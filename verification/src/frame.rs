//! The vocabulary of one frame: what the device reports to the renderer, and
//! what the renderer asks of the device in turn.
//!
//! The renderer itself never waits on the device. It is told what happened
//! (a `FrameEvent`), decides, and answers with what is to be done next (a
//! `FrameAction`). The embedding program performs the action and comes back
//! with the next event, until the action is `Finish`.

use vstd::prelude::*;
use crate::handles::{FutureToken, PipelineHandle};
use crate::swapchain::{Framebuffer, Swapchain, Viewport};

verus! {

/// The completion of the frame submitted last.
#[derive(Clone, Copy, Debug, PartialEq, Eq, Structural)]
pub enum FrameFuture {
    /// Nothing is outstanding: a placeholder that is signaled already.
    Signaled,
    /// The device may still be working on the frame behind this token.
    InFlight(FutureToken),
}

/// Why rendering cannot go on.
#[derive(Clone, Copy, Debug, PartialEq, Eq, Structural)]
pub enum RenderError {
    /// The renderer has not been started, or its state has been taken apart.
    NotStarted,
    /// No image could be acquired, for a reason other than a stale swapchain
    /// met for the first time in this frame.
    Acquisition,
    /// The swapchain could not be created anew.
    SwapchainCreation,
    /// The device named an image that the swapchain does not have.
    InvalidImageIndex,
    /// The command buffer could not be built.
    CommandBuffer,
    /// The command buffer could not be handed to the queue.
    Submission,
    /// The device was lost while the frame was flushed.
    DeviceLost,
}

/// The stage of a frame at which something can go wrong for good.
#[derive(Clone, Copy, Debug, PartialEq, Eq, Structural)]
pub enum Stage {
    Startup,
    Acquisition,
    SwapchainCreation,
    CommandBuffer,
    Submission,
}

impl RenderError {
    /// The stage that failed.
    pub open spec fn failed_stage(self) -> Stage {
        match self {
            RenderError::NotStarted => Stage::Startup,
            RenderError::Acquisition => Stage::Acquisition,
            RenderError::InvalidImageIndex => Stage::Acquisition,
            RenderError::SwapchainCreation => Stage::SwapchainCreation,
            RenderError::CommandBuffer => Stage::CommandBuffer,
            RenderError::Submission => Stage::Submission,
            RenderError::DeviceLost => Stage::Submission,
        }
    }

    /// What to say of the error.
    pub open spec fn message(self) -> Seq<char> {
        match self {
            RenderError::NotStarted => "the renderer has not been started"@,
            RenderError::Acquisition => "failed to acquire the next image"@,
            RenderError::InvalidImageIndex => "acquired an image that the swapchain does not have"@,
            RenderError::SwapchainCreation => "failed to recreate the swapchain"@,
            RenderError::CommandBuffer => "failed to build the command buffer"@,
            RenderError::Submission => "failed to submit the command buffer"@,
            RenderError::DeviceLost => "the device was lost"@,
        }
    }

    /// The stage that failed.
    pub fn stage(&self) -> (stage: Stage)
        ensures
            stage == self.failed_stage(),
    {
        match self {
            RenderError::NotStarted => Stage::Startup,
            RenderError::Acquisition => Stage::Acquisition,
            RenderError::InvalidImageIndex => Stage::Acquisition,
            RenderError::SwapchainCreation => Stage::SwapchainCreation,
            RenderError::CommandBuffer => Stage::CommandBuffer,
            RenderError::Submission => Stage::Submission,
            RenderError::DeviceLost => Stage::Submission,
        }
    }

    /// The diagnostic for the user.
    pub fn describe(&self) -> (text: String)
        ensures
            text@ == self.message(),
    {
        match self {
            RenderError::NotStarted => "the renderer has not been started".to_string(),
            RenderError::Acquisition => "failed to acquire the next image".to_string(),
            RenderError::InvalidImageIndex => "acquired an image that the swapchain does not have".to_string(),
            RenderError::SwapchainCreation => "failed to recreate the swapchain".to_string(),
            RenderError::CommandBuffer => "failed to build the command buffer".to_string(),
            RenderError::Submission => "failed to submit the command buffer".to_string(),
            RenderError::DeviceLost => "the device was lost".to_string(),
        }
    }
}

/// Where in a frame the renderer stands.
#[derive(Clone, Copy, Debug, PartialEq, Eq, Structural)]
pub enum FramePhase {
    /// Between two frames.
    Idle,
    /// Finished work of earlier frames is being released.
    Cleaning,
    /// A new swapchain has been asked for. `after_stale` says why: because
    /// an acquisition of this frame found the swapchain stale, or, if not,
    /// because the swapchain was marked for recreation before the frame.
    Recreating { after_stale: bool },
    /// An image has been asked for. `retry` says whether this is the one
    /// retry that follows a stale swapchain and its recreation.
    Acquiring { retry: bool },
    /// The command buffer for the acquired image is being recorded.
    Recording { image_index: usize, acquire_future: FutureToken },
    /// The frame is with the queue.
    Submitting,
}

/// How the acquisition of an image ended.
#[derive(Clone, Copy, Debug, PartialEq, Eq, Structural)]
pub enum AcquireOutcome {
    /// An image is there. `suboptimal` says that the swapchain still works
    /// but no longer fits the surface.
    Image { image_index: usize, suboptimal: bool, acquire_future: FutureToken },
    /// The swapchain no longer fits the surface and gives out no image.
    OutOfDate,
    /// No image became free within the time allowed.
    Timeout,
    /// Any other failure.
    Failed,
}

/// How the creation of a new swapchain ended.
#[derive(Debug, PartialEq, Eq)]
pub enum RecreateOutcome {
    /// The new swapchain.
    Created { swapchain: Swapchain },
    /// The surface has a size that no swapchain can have, as a minimized
    /// window does.
    UnsupportedDimensions,
    /// Any other failure.
    Failed,
}

/// How the recording of the command buffer ended.
#[derive(Clone, Copy, Debug, PartialEq, Eq, Structural)]
pub enum RecordOutcome {
    Built,
    BuildFailed,
}

/// How the submission of a frame ended.
#[derive(Clone, Copy, Debug, PartialEq, Eq, Structural)]
pub enum SubmitOutcome {
    /// The frame is on its way; the token stands for its completion.
    Flushed(FutureToken),
    /// The swapchain went stale before the frame could be presented.
    OutOfDate,
    /// The device was lost.
    DeviceLost,
    /// The flush failed for any other reason.
    FlushFailed,
    /// The queue did not take the command buffer.
    ExecuteFailed,
}

/// What the renderer is told.
#[derive(Debug, PartialEq, Eq)]
pub enum FrameEvent {
    /// A frame is wanted.
    Begin,
    /// Finished work has been released.
    CleanedUp,
    Recreated(RecreateOutcome),
    Acquired(AcquireOutcome),
    Recorded(RecordOutcome),
    Submitted(SubmitOutcome),
}

/// How a frame ended.
#[derive(Clone, Copy, Debug, PartialEq, Eq, Structural)]
pub enum FrameResult {
    /// The frame was submitted and will be presented.
    Presented,
    /// The frame was built and then lost in submission; rendering goes on.
    Dropped,
    /// No frame was built this time; the caller tries again with the next.
    Skipped,
    /// Rendering cannot go on.
    Fatal(RenderError),
}

/// Where a command buffer draws to, and with what.
#[derive(Clone, Copy, Debug, PartialEq, Eq, Structural)]
pub struct RecordTarget {
    pub image_index: usize,
    pub framebuffer: Framebuffer,
    pub viewport: Viewport,
    pub pipeline: PipelineHandle,
}

/// What the renderer asks for.
#[derive(Clone, Copy, Debug, PartialEq, Eq, Structural)]
pub enum FrameAction {
    /// Release, without waiting, what the device has finished of the given
    /// future, and report `CleanedUp`.
    CleanupFinished(FrameFuture),
    /// Read the size of the surface, create a swapchain of that size from the
    /// current one, and report `Recreated`.
    RecreateSwapchain,
    /// Acquire the next image and report `Acquired`.
    AcquireImage,
    /// Record and build the command buffer for the target, and report
    /// `Recorded`.
    Record(RecordTarget),
    /// Wait on `wait_on`, join it with the acquisition, execute the command
    /// buffer, present the image, signal a fence and flush; report
    /// `Submitted`. The renderer has given `wait_on` away with this action.
    Submit { wait_on: FrameFuture, acquire_future: FutureToken, image_index: usize },
    /// The frame is over.
    Finish(FrameResult),
    /// The event does not belong to the phase the renderer is in. Nothing
    /// has changed.
    Rejected,
}

/// What the swapchain state looks like after an attempt to create it anew.
#[derive(Clone, Copy, Debug, PartialEq, Eq, Structural)]
pub enum RecreateStatus {
    /// Swapchain, framebuffers and viewport have been replaced together.
    Recreated,
    /// The surface had no usable size; everything is as it was.
    Unchanged,
    /// The attempt failed for good; everything is as it was.
    Failed,
}

} // verus!
