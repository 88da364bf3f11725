//! The renderer: the swapchain with its framebuffers and viewport, the
//! completion of the frame submitted last, and the protocol that takes one
//! frame from acquisition to presentation.

use vstd::prelude::*;
use crate::frame::{
    AcquireOutcome, FrameAction, FrameEvent, FrameFuture, FramePhase, FrameResult, RecordOutcome,
    RecordTarget, RecreateOutcome, RecreateStatus, RenderError, SubmitOutcome,
};
use crate::handles::{
    DeviceHandle, FutureToken, PipelineHandle, QueueHandle, RenderPassHandle, SurfaceHandle,
};
use crate::swapchain::{
    framebuffers_for, Framebuffer, Swapchain, SwapchainView, Viewport,
};

verus! {

/// What the renderer holds, as mathematical values.
pub struct RenderManagerView {
    pub surface: Option<SurfaceHandle>,
    pub device: Option<DeviceHandle>,
    pub queue: Option<QueueHandle>,
    pub swapchain: Option<SwapchainView>,
    pub render_pass: Option<RenderPassHandle>,
    pub pipeline: Option<PipelineHandle>,
    pub framebuffers: Option<Seq<Framebuffer>>,
    pub recreate_swapchain: bool,
    pub previous_frame_end: Option<FrameFuture>,
    pub viewport: Option<Viewport>,
    pub phase: FramePhase,
}

impl RenderManagerView {
    /// Whether the renderer can take part in a frame: it has all its
    /// resources, and it holds the completion of the last frame except while
    /// a submission has it.
    pub open spec fn started(self) -> bool {
        &&& self.surface is Some
        &&& self.device is Some
        &&& self.queue is Some
        &&& self.swapchain is Some
        &&& self.render_pass is Some
        &&& self.pipeline is Some
        &&& self.framebuffers is Some
        &&& self.viewport is Some
        &&& (self.previous_frame_end is None <==> self.phase is Submitting)
    }

    /// Whether framebuffers and viewport are those of the current swapchain:
    /// one framebuffer for each image, in order, and a viewport of the size
    /// of the first image.
    pub open spec fn consistent(self) -> bool {
        &&& self.swapchain is Some
        &&& self.render_pass is Some
        &&& self.framebuffers is Some
        &&& self.viewport is Some
        &&& self.swapchain.unwrap().images.len() > 0
        &&& self.framebuffers.unwrap() == framebuffers_for(
            self.swapchain.unwrap().images,
            self.render_pass.unwrap(),
        )
        &&& self.viewport.unwrap().extent() == self.swapchain.unwrap().images[0].extent
    }

    /// The same renderer in another phase.
    pub open spec fn in_phase(self, phase: FramePhase) -> RenderManagerView {
        RenderManagerView { phase, ..self }
    }

    /// The swapchain state after an attempt to create the swapchain anew.
    /// A new swapchain with at least one image replaces swapchain,
    /// framebuffers and viewport together and clears the flag; anything else
    /// changes nothing.
    pub open spec fn recreated(
        self,
        outcome: RecreateOutcome,
    ) -> (RenderManagerView, RecreateStatus) {
        match outcome {
            RecreateOutcome::Created { swapchain } => {
                if self.render_pass is Some && self.viewport is Some && swapchain@.images.len() > 0 {
                    (
                        RenderManagerView {
                            swapchain: Some(swapchain@),
                            framebuffers: Some(
                                framebuffers_for(swapchain@.images, self.render_pass.unwrap()),
                            ),
                            viewport: Some(
                                self.viewport.unwrap().resized(swapchain@.images[0].extent),
                            ),
                            recreate_swapchain: false,
                            ..self
                        },
                        RecreateStatus::Recreated,
                    )
                } else {
                    (self, RecreateStatus::Failed)
                }
            },
            RecreateOutcome::UnsupportedDimensions => (self, RecreateStatus::Unchanged),
            RecreateOutcome::Failed => (self, RecreateStatus::Failed),
        }
    }

    /// The renderer after it has been given its resources. With a swapchain
    /// of at least one image it holds them all, with the framebuffers and
    /// the viewport of that swapchain, nothing marked, nothing outstanding,
    /// between two frames. With a swapchain without images nothing changes.
    pub open spec fn started_with(self, resources: StartupResources) -> RenderManagerView {
        if resources.swapchain@.images.len() > 0 {
            RenderManagerView {
                surface: Some(resources.surface),
                device: Some(resources.device),
                queue: Some(resources.queue),
                swapchain: Some(resources.swapchain@),
                render_pass: Some(resources.render_pass),
                pipeline: Some(resources.pipeline),
                framebuffers: Some(
                    framebuffers_for(resources.swapchain@.images, resources.render_pass),
                ),
                recreate_swapchain: false,
                previous_frame_end: Some(FrameFuture::Signaled),
                viewport: Some(
                    Viewport {
                        x: 0,
                        y: 0,
                        width: resources.swapchain@.images[0].extent.width,
                        height: resources.swapchain@.images[0].extent.height,
                        min_depth: 0,
                        max_depth: 1,
                    },
                ),
                phase: FramePhase::Idle,
            }
        } else {
            self
        }
    }

    /// A frame begins: finished work of earlier frames is released first.
    pub open spec fn begin(self) -> (RenderManagerView, FrameAction) {
        (
            self.in_phase(FramePhase::Cleaning),
            FrameAction::CleanupFinished(self.previous_frame_end.unwrap()),
        )
    }

    /// After the release: a swapchain marked for recreation is created anew
    /// before anything is acquired from it.
    pub open spec fn cleaned_up(self) -> (RenderManagerView, FrameAction) {
        if self.recreate_swapchain {
            (
                self.in_phase(FramePhase::Recreating { after_stale: false }),
                FrameAction::RecreateSwapchain,
            )
        } else {
            (self.in_phase(FramePhase::Acquiring { retry: false }), FrameAction::AcquireImage)
        }
    }

    /// After the attempt to create the swapchain anew. With a new swapchain
    /// the image is acquired from it: as the one retry, if the recreation
    /// followed a stale swapchain, and as the first acquisition of the
    /// frame, if it followed the mark. A surface without usable size ends
    /// the frame with the swapchain as it was; any other failure is fatal.
    pub open spec fn recreation_done(
        self,
        after_stale: bool,
        outcome: RecreateOutcome,
    ) -> (RenderManagerView, FrameAction) {
        let (next, status) = self.recreated(outcome);
        match status {
            RecreateStatus::Recreated => (
                next.in_phase(FramePhase::Acquiring { retry: after_stale }),
                FrameAction::AcquireImage,
            ),
            RecreateStatus::Unchanged => (
                next.in_phase(FramePhase::Idle),
                FrameAction::Finish(FrameResult::Skipped),
            ),
            RecreateStatus::Failed => (
                next.in_phase(FramePhase::Idle),
                FrameAction::Finish(FrameResult::Fatal(RenderError::SwapchainCreation)),
            ),
        }
    }

    /// After the acquisition. An image goes on to recording, and marks the
    /// swapchain for recreation if it is suboptimal. A stale swapchain is
    /// created anew and the acquisition tried once more; stale again at
    /// that retry, it is fatal. A timeout ends the frame without harm.
    pub open spec fn acquired(
        self,
        retry: bool,
        outcome: AcquireOutcome,
    ) -> (RenderManagerView, FrameAction) {
        match outcome {
            AcquireOutcome::Image { image_index, suboptimal, acquire_future } => {
                if image_index < self.framebuffers.unwrap().len() {
                    (
                        RenderManagerView {
                            recreate_swapchain: self.recreate_swapchain || suboptimal,
                            phase: FramePhase::Recording { image_index, acquire_future },
                            ..self
                        },
                        FrameAction::Record(
                            RecordTarget {
                                image_index,
                                framebuffer: self.framebuffers.unwrap()[image_index as int],
                                viewport: self.viewport.unwrap(),
                                pipeline: self.pipeline.unwrap(),
                            },
                        ),
                    )
                } else {
                    (
                        self.in_phase(FramePhase::Idle),
                        FrameAction::Finish(FrameResult::Fatal(RenderError::InvalidImageIndex)),
                    )
                }
            },
            AcquireOutcome::OutOfDate => {
                if retry {
                    (
                        self.in_phase(FramePhase::Idle),
                        FrameAction::Finish(FrameResult::Fatal(RenderError::Acquisition)),
                    )
                } else {
                    (
                        self.in_phase(FramePhase::Recreating { after_stale: true }),
                        FrameAction::RecreateSwapchain,
                    )
                }
            },
            AcquireOutcome::Timeout => (
                self.in_phase(FramePhase::Idle),
                FrameAction::Finish(FrameResult::Skipped),
            ),
            AcquireOutcome::Failed => (
                self.in_phase(FramePhase::Idle),
                FrameAction::Finish(FrameResult::Fatal(RenderError::Acquisition)),
            ),
        }
    }

    /// After the recording: the command buffer is submitted behind the
    /// completion of the last frame, which the renderer gives away here.
    pub open spec fn recorded(
        self,
        image_index: usize,
        acquire_future: FutureToken,
        outcome: RecordOutcome,
    ) -> (RenderManagerView, FrameAction) {
        match outcome {
            RecordOutcome::Built => (
                RenderManagerView {
                    previous_frame_end: None,
                    phase: FramePhase::Submitting,
                    ..self
                },
                FrameAction::Submit {
                    wait_on: self.previous_frame_end.unwrap(),
                    acquire_future,
                    image_index,
                },
            ),
            RecordOutcome::BuildFailed => (
                self.in_phase(FramePhase::Idle),
                FrameAction::Finish(FrameResult::Fatal(RenderError::CommandBuffer)),
            ),
        }
    }

    /// What the renderer holds as the completion of the last frame after a
    /// submission: the new token if the frame was flushed, a signaled
    /// placeholder otherwise.
    pub open spec fn future_after(outcome: SubmitOutcome) -> FrameFuture {
        match outcome {
            SubmitOutcome::Flushed(token) => FrameFuture::InFlight(token),
            _ => FrameFuture::Signaled,
        }
    }

    /// How a frame ends after a submission.
    pub open spec fn result_after(outcome: SubmitOutcome) -> FrameResult {
        match outcome {
            SubmitOutcome::Flushed(_) => FrameResult::Presented,
            SubmitOutcome::OutOfDate => FrameResult::Dropped,
            SubmitOutcome::FlushFailed => FrameResult::Dropped,
            SubmitOutcome::DeviceLost => FrameResult::Fatal(RenderError::DeviceLost),
            SubmitOutcome::ExecuteFailed => FrameResult::Fatal(RenderError::Submission),
        }
    }

    /// After the submission: the renderer holds a completion again, and a
    /// swapchain that went stale is marked for recreation.
    pub open spec fn submitted(self, outcome: SubmitOutcome) -> (RenderManagerView, FrameAction) {
        (
            RenderManagerView {
                previous_frame_end: Some(Self::future_after(outcome)),
                recreate_swapchain: self.recreate_swapchain || outcome is OutOfDate,
                phase: FramePhase::Idle,
                ..self
            },
            FrameAction::Finish(Self::result_after(outcome)),
        )
    }

    /// One step of the frame protocol: the state after the event, and what
    /// is to be done next.
    pub open spec fn step(self, event: FrameEvent) -> (RenderManagerView, FrameAction) {
        if !self.started() {
            (self, FrameAction::Finish(FrameResult::Fatal(RenderError::NotStarted)))
        } else {
            match (self.phase, event) {
                (FramePhase::Idle, FrameEvent::Begin) => self.begin(),
                (FramePhase::Cleaning, FrameEvent::CleanedUp) => self.cleaned_up(),
                (
                    FramePhase::Recreating { after_stale },
                    FrameEvent::Recreated(outcome),
                ) => self.recreation_done(after_stale, outcome),
                (FramePhase::Acquiring { retry }, FrameEvent::Acquired(outcome)) => self.acquired(
                    retry,
                    outcome,
                ),
                (
                    FramePhase::Recording { image_index, acquire_future },
                    FrameEvent::Recorded(outcome),
                ) => self.recorded(image_index, acquire_future, outcome),
                (FramePhase::Submitting, FrameEvent::Submitted(outcome)) => self.submitted(outcome),
                _ => (self, FrameAction::Rejected),
            }
        }
    }
}

/// What the embedding program has created on the device for the renderer.
#[derive(Debug, PartialEq, Eq)]
pub struct StartupResources {
    pub surface: SurfaceHandle,
    pub device: DeviceHandle,
    pub queue: QueueHandle,
    pub swapchain: Swapchain,
    pub render_pass: RenderPassHandle,
    pub pipeline: PipelineHandle,
}

/// The renderer.
#[derive(Debug, PartialEq, Eq)]
pub struct RenderManager {
    pub surface: Option<SurfaceHandle>,
    pub device: Option<DeviceHandle>,
    pub queue: Option<QueueHandle>,
    pub swapchain: Option<Swapchain>,
    pub render_pass: Option<RenderPassHandle>,
    pub pipeline: Option<PipelineHandle>,
    pub framebuffers: Option<Vec<Framebuffer>>,
    pub recreate_swapchain: bool,
    pub previous_frame_end: Option<FrameFuture>,
    pub viewport: Option<Viewport>,
    pub phase: FramePhase,
}

impl View for RenderManager {
    type V = RenderManagerView;

    open spec fn view(&self) -> RenderManagerView {
        RenderManagerView {
            surface: self.surface,
            device: self.device,
            queue: self.queue,
            swapchain: match self.swapchain {
                Some(swapchain) => Some(swapchain@),
                None => None,
            },
            render_pass: self.render_pass,
            pipeline: self.pipeline,
            framebuffers: match self.framebuffers {
                Some(framebuffers) => Some(framebuffers@),
                None => None,
            },
            recreate_swapchain: self.recreate_swapchain,
            previous_frame_end: self.previous_frame_end,
            viewport: self.viewport,
            phase: self.phase,
        }
    }
}

impl RenderManager {
    /// A renderer that holds nothing yet.
    pub fn create_new() -> (manager: Self)
        ensures
            manager@ == (RenderManagerView {
                surface: None,
                device: None,
                queue: None,
                swapchain: None,
                render_pass: None,
                pipeline: None,
                framebuffers: None,
                recreate_swapchain: false,
                previous_frame_end: None,
                viewport: None,
                phase: FramePhase::Idle,
            }),
            !manager@.started(),
    {
        RenderManager {
            surface: None,
            device: None,
            queue: None,
            swapchain: None,
            render_pass: None,
            pipeline: None,
            framebuffers: None,
            recreate_swapchain: false,
            previous_frame_end: None,
            viewport: None,
            phase: FramePhase::Idle,
        }
    }

    /// Takes over the resources that the embedding program has created, and
    /// derives framebuffers and viewport from the swapchain. Fails, and
    /// changes nothing, if the swapchain has no image.
    pub fn startup(&mut self, resources: StartupResources) -> (result: Result<(), RenderError>)
        ensures
            final(self)@ == old(self)@.started_with(resources),
            result is Ok <==> resources.swapchain@.images.len() > 0,
            result is Err ==> result == Err::<(), RenderError>(RenderError::SwapchainCreation),
            result is Ok ==> final(self)@.started() && final(self)@.consistent(),
    {
        if resources.swapchain.images.len() == 0 {
            return Err(RenderError::SwapchainCreation);
        }
        let mut viewport = Viewport::empty();
        let framebuffers = RenderManager::window_size_dependent_setup(
            &resources.swapchain.images,
            resources.render_pass,
            &mut viewport,
        );
        self.surface = Some(resources.surface);
        self.device = Some(resources.device);
        self.queue = Some(resources.queue);
        self.swapchain = Some(resources.swapchain);
        self.render_pass = Some(resources.render_pass);
        self.pipeline = Some(resources.pipeline);
        self.framebuffers = Some(framebuffers);
        self.previous_frame_end = Some(FrameFuture::Signaled);
        self.recreate_swapchain = false;
        self.viewport = Some(viewport);
        self.phase = FramePhase::Idle;
        Ok(())
    }

    /// Lets go of nothing: what was created on the device is released by
    /// whoever created it.
    pub fn shutdown(&mut self)
        ensures
            final(self)@ == old(self)@,
    {
    }

    /// Has nothing to do between two frames.
    pub fn update(&mut self)
        ensures
            final(self)@ == old(self)@,
    {
    }

    /// Has nothing to do: the frames are driven from outside, one `draw`
    /// after the other.
    pub fn run(&mut self)
        ensures
            final(self)@ == old(self)@,
    {
    }

    pub fn framebuffers(&self) -> (framebuffers: &Vec<Framebuffer>)
        requires
            self@.framebuffers is Some,
        ensures
            Some(framebuffers@) == self@.framebuffers,
    {
        self.framebuffers.as_ref().unwrap()
    }

    pub fn pipeline(&self) -> (pipeline: PipelineHandle)
        requires
            self@.pipeline is Some,
        ensures
            Some(pipeline) == self@.pipeline,
    {
        self.pipeline.unwrap()
    }

    pub fn device(&self) -> (device: DeviceHandle)
        requires
            self@.device is Some,
        ensures
            Some(device) == self@.device,
    {
        self.device.unwrap()
    }

    pub fn queue(&self) -> (queue: QueueHandle)
        requires
            self@.queue is Some,
        ensures
            Some(queue) == self@.queue,
    {
        self.queue.unwrap()
    }

    pub fn surface(&self) -> (surface: SurfaceHandle)
        requires
            self@.surface is Some,
        ensures
            Some(surface) == self@.surface,
    {
        self.surface.unwrap()
    }

    pub fn render_pass(&self) -> (render_pass: RenderPassHandle)
        requires
            self@.render_pass is Some,
        ensures
            Some(render_pass) == self@.render_pass,
    {
        self.render_pass.unwrap()
    }

    pub fn swapchain(&self) -> (swapchain: &Swapchain)
        requires
            self@.swapchain is Some,
        ensures
            Some(swapchain@) == self@.swapchain,
    {
        self.swapchain.as_ref().unwrap()
    }

    pub fn viewport(&self) -> (viewport: Viewport)
        requires
            self@.viewport is Some,
        ensures
            Some(viewport) == self@.viewport,
    {
        self.viewport.unwrap()
    }

    /// Whether the renderer can take part in a frame.
    pub fn is_started(&self) -> (started: bool)
        ensures
            started == self@.started(),
    {
        let holds_future = self.previous_frame_end.is_some();
        let submitting = match self.phase {
            FramePhase::Submitting => true,
            _ => false,
        };
        self.surface.is_some() && self.device.is_some() && self.queue.is_some()
            && self.swapchain.is_some() && self.render_pass.is_some() && self.pipeline.is_some()
            && self.framebuffers.is_some() && self.viewport.is_some() && holds_future != submitting
    }

    /// The framebuffer of one image of the swapchain.
    pub fn framebuffer_at(&self, image_index: usize) -> (framebuffer: Framebuffer)
        requires
            self@.framebuffers is Some,
            image_index < self@.framebuffers.unwrap().len(),
        ensures
            framebuffer == self@.framebuffers.unwrap()[image_index as int],
    {
        let framebuffers = self.framebuffers.as_ref().unwrap();
        framebuffers[image_index]
    }

    /// Marks the swapchain for recreation: the next frame creates it anew
    /// before it acquires an image. This is what a change of the size of the
    /// window calls for. Nothing else changes.
    pub fn mark_for_recreation(&mut self)
        ensures
            final(self)@ == (RenderManagerView { recreate_swapchain: true, ..old(self)@ }),
    {
        self.recreate_swapchain = true;
    }

    /// Takes in the outcome of an attempt to create the swapchain anew.
    pub fn recreate_swapchain(&mut self, outcome: RecreateOutcome) -> (status: RecreateStatus)
        ensures
            (final(self)@, status) == old(self)@.recreated(outcome),
    {
        match outcome {
            RecreateOutcome::Created { swapchain } => {
                if self.render_pass.is_none() || self.viewport.is_none() || swapchain.images.len() == 0 {
                    return RecreateStatus::Failed;
                }
                let render_pass = self.render_pass.unwrap();
                let mut viewport = self.viewport.unwrap();
                let framebuffers = RenderManager::window_size_dependent_setup(
                    &swapchain.images,
                    render_pass,
                    &mut viewport,
                );
                self.recreate_swapchain = false;
                self.framebuffers = Some(framebuffers);
                self.viewport = Some(viewport);
                self.swapchain = Some(swapchain);
                RecreateStatus::Recreated
            },
            RecreateOutcome::UnsupportedDimensions => RecreateStatus::Unchanged,
            RecreateOutcome::Failed => RecreateStatus::Failed,
        }
    }

    /// Takes in the outcome of an acquisition. `retry` says whether this is
    /// the one retry that follows a stale swapchain and its recreation.
    pub fn acquire_swapchain_image(
        &mut self,
        retry: bool,
        outcome: AcquireOutcome,
    ) -> (action: FrameAction)
        requires
            old(self)@.started(),
        ensures
            (final(self)@, action) == old(self)@.acquired(retry, outcome),
    {
        match outcome {
            AcquireOutcome::Image { image_index, suboptimal, acquire_future } => {
                let count: usize = self.framebuffers.as_ref().unwrap().len();
                if image_index < count {
                    let framebuffer = self.framebuffer_at(image_index);
                    if suboptimal {
                        self.recreate_swapchain = true;
                    }
                    self.phase = FramePhase::Recording { image_index, acquire_future };
                    FrameAction::Record(
                        RecordTarget {
                            image_index,
                            framebuffer,
                            viewport: self.viewport.unwrap(),
                            pipeline: self.pipeline.unwrap(),
                        },
                    )
                } else {
                    self.phase = FramePhase::Idle;
                    FrameAction::Finish(FrameResult::Fatal(RenderError::InvalidImageIndex))
                }
            },
            AcquireOutcome::OutOfDate => {
                if retry {
                    self.phase = FramePhase::Idle;
                    FrameAction::Finish(FrameResult::Fatal(RenderError::Acquisition))
                } else {
                    self.phase = FramePhase::Recreating { after_stale: true };
                    FrameAction::RecreateSwapchain
                }
            },
            AcquireOutcome::Timeout => {
                self.phase = FramePhase::Idle;
                FrameAction::Finish(FrameResult::Skipped)
            },
            AcquireOutcome::Failed => {
                self.phase = FramePhase::Idle;
                FrameAction::Finish(FrameResult::Fatal(RenderError::Acquisition))
            },
        }
    }

    /// Takes in the outcome of a submission. The renderer has given its
    /// completion away with the submission and holds none, so none is
    /// overwritten here.
    pub fn finish_submission(&mut self, outcome: SubmitOutcome) -> (action: FrameAction)
        requires
            old(self)@.started(),
            old(self)@.phase is Submitting,
        ensures
            (final(self)@, action) == old(self)@.submitted(outcome),
    {
        self.phase = FramePhase::Idle;
        match outcome {
            SubmitOutcome::Flushed(token) => {
                self.previous_frame_end = Some(FrameFuture::InFlight(token));
                FrameAction::Finish(FrameResult::Presented)
            },
            SubmitOutcome::OutOfDate => {
                self.recreate_swapchain = true;
                self.previous_frame_end = Some(FrameFuture::Signaled);
                FrameAction::Finish(FrameResult::Dropped)
            },
            SubmitOutcome::FlushFailed => {
                self.previous_frame_end = Some(FrameFuture::Signaled);
                FrameAction::Finish(FrameResult::Dropped)
            },
            SubmitOutcome::DeviceLost => {
                self.previous_frame_end = Some(FrameFuture::Signaled);
                FrameAction::Finish(FrameResult::Fatal(RenderError::DeviceLost))
            },
            SubmitOutcome::ExecuteFailed => {
                self.previous_frame_end = Some(FrameFuture::Signaled);
                FrameAction::Finish(FrameResult::Fatal(RenderError::Submission))
            },
        }
    }

    /// Takes the frame one step on: takes in what happened, and says what is
    /// to be done next. A frame starts with `Begin` and is over when the
    /// answer is `Finish`.
    pub fn draw(&mut self, event: FrameEvent) -> (action: FrameAction)
        ensures
            (final(self)@, action) == old(self)@.step(event),
    {
        if !self.is_started() {
            return FrameAction::Finish(FrameResult::Fatal(RenderError::NotStarted));
        }
        match (self.phase, event) {
            (FramePhase::Idle, FrameEvent::Begin) => {
                self.phase = FramePhase::Cleaning;
                FrameAction::CleanupFinished(self.previous_frame_end.unwrap())
            },
            (FramePhase::Cleaning, FrameEvent::CleanedUp) => {
                if self.recreate_swapchain {
                    self.phase = FramePhase::Recreating { after_stale: false };
                    FrameAction::RecreateSwapchain
                } else {
                    self.phase = FramePhase::Acquiring { retry: false };
                    FrameAction::AcquireImage
                }
            },
            (FramePhase::Recreating { after_stale }, FrameEvent::Recreated(outcome)) => {
                match self.recreate_swapchain(outcome) {
                    RecreateStatus::Recreated => {
                        self.phase = FramePhase::Acquiring { retry: after_stale };
                        FrameAction::AcquireImage
                    },
                    RecreateStatus::Unchanged => {
                        self.phase = FramePhase::Idle;
                        FrameAction::Finish(FrameResult::Skipped)
                    },
                    RecreateStatus::Failed => {
                        self.phase = FramePhase::Idle;
                        FrameAction::Finish(FrameResult::Fatal(RenderError::SwapchainCreation))
                    },
                }
            },
            (FramePhase::Acquiring { retry }, FrameEvent::Acquired(outcome)) => {
                self.acquire_swapchain_image(retry, outcome)
            },
            (FramePhase::Recording { image_index, acquire_future }, FrameEvent::Recorded(outcome)) => {
                match outcome {
                    RecordOutcome::Built => {
                        let wait_on = self.previous_frame_end.unwrap();
                        self.previous_frame_end = None;
                        self.phase = FramePhase::Submitting;
                        FrameAction::Submit { wait_on, acquire_future, image_index }
                    },
                    RecordOutcome::BuildFailed => {
                        self.phase = FramePhase::Idle;
                        FrameAction::Finish(FrameResult::Fatal(RenderError::CommandBuffer))
                    },
                }
            },
            (FramePhase::Submitting, FrameEvent::Submitted(outcome)) => self.finish_submission(outcome),
            _ => FrameAction::Rejected,
        }
    }
}

} // verus!
