//! What holds of the frame protocol over any run of events: the completion
//! of each frame is handed on to the next, a surface without usable size
//! changes nothing, framebuffers and viewport stay in line with the
//! swapchain, and every frame comes to an end.

use vstd::prelude::*;
use crate::frame::{
    AcquireOutcome, FrameAction, FrameEvent, FrameFuture, FramePhase, FrameResult, RecordOutcome,
    RecreateOutcome, RecreateStatus, RenderError, SubmitOutcome,
};
use crate::handles::FutureToken;
use crate::render_manager::RenderManagerView;
use crate::swapchain::Swapchain;

verus! {

impl RenderManagerView {
    /// The state after a run of events, each taken in by one step.
    pub open spec fn run(self, events: Seq<FrameEvent>) -> RenderManagerView
        decreases events.len(),
    {
        if events.len() == 0 {
            self
        } else {
            self.step(events[0]).0.run(events.drop_first())
        }
    }

    /// The completion that the renderer holds: one, or none while a
    /// submission has it.
    pub open spec fn held(self) -> Seq<FrameFuture> {
        match self.previous_frame_end {
            Some(future) => seq![future],
            None => Seq::empty(),
        }
    }

    /// The completion that an action hands to the device to wait on.
    pub open spec fn joined_by(action: FrameAction) -> Seq<FrameFuture> {
        match action {
            FrameAction::Submit { wait_on, .. } => seq![wait_on],
            _ => Seq::empty(),
        }
    }

    /// The completion that the renderer takes over from an event.
    pub open spec fn stored_by(self, event: FrameEvent) -> Seq<FrameFuture> {
        match event {
            FrameEvent::Submitted(outcome) => {
                if self.started() && self.phase is Submitting {
                    seq![Self::future_after(outcome)]
                } else {
                    Seq::empty()
                }
            },
            _ => Seq::empty(),
        }
    }

    /// The completions handed to the device over a run of events, in order.
    pub open spec fn joined(self, events: Seq<FrameEvent>) -> Seq<FrameFuture>
        decreases events.len(),
    {
        if events.len() == 0 {
            Seq::empty()
        } else {
            Self::joined_by(self.step(events[0]).1) + self.step(events[0]).0.joined(
                events.drop_first(),
            )
        }
    }

    /// The completions taken over from the device over a run of events, in
    /// order.
    pub open spec fn stored(self, events: Seq<FrameEvent>) -> Seq<FrameFuture>
        decreases events.len(),
    {
        if events.len() == 0 {
            Seq::empty()
        } else {
            self.stored_by(events[0]) + self.step(events[0]).0.stored(events.drop_first())
        }
    }

    /// How many steps a frame can still take, at most, from a phase.
    pub open spec fn steps_left(phase: FramePhase) -> nat {
        match phase {
            FramePhase::Idle => 0,
            FramePhase::Submitting => 1,
            FramePhase::Recording { .. } => 2,
            FramePhase::Acquiring { retry: true } => 3,
            FramePhase::Recreating { after_stale: true } => 4,
            FramePhase::Acquiring { retry: false } => 5,
            FramePhase::Recreating { after_stale: false } => 6,
            FramePhase::Cleaning => 7,
        }
    }
}

/// An attempt to create the swapchain anew that meets a surface without
/// usable size changes nothing at all, however often it is made.
pub proof fn lemma_unsupported_dimensions_changes_nothing(manager: RenderManagerView)
    ensures
        manager.recreated(RecreateOutcome::UnsupportedDimensions) == (manager, RecreateStatus::Unchanged),
        manager.recreated(RecreateOutcome::UnsupportedDimensions).0.recreated(
            RecreateOutcome::UnsupportedDimensions,
        ) == (manager, RecreateStatus::Unchanged),
{
}

/// A frame that meets a surface without usable size, whether the swapchain
/// was marked for recreation or went stale at acquisition, ends as skipped
/// and leaves the renderer exactly as it was before the frame.
pub proof fn lemma_skipped_frame_changes_nothing(manager: RenderManagerView)
    requires
        manager.started(),
        manager.phase is Idle,
    ensures
        manager.recreate_swapchain ==> manager.run(
            seq![
                FrameEvent::Begin,
                FrameEvent::CleanedUp,
                FrameEvent::Recreated(RecreateOutcome::UnsupportedDimensions),
            ],
        ) == manager,
        !manager.recreate_swapchain ==> manager.run(
            seq![
                FrameEvent::Begin,
                FrameEvent::CleanedUp,
                FrameEvent::Acquired(AcquireOutcome::OutOfDate),
                FrameEvent::Recreated(RecreateOutcome::UnsupportedDimensions),
            ],
        ) == manager,
{
    let a = manager.step(FrameEvent::Begin).0;
    let b = a.step(FrameEvent::CleanedUp).0;
    if manager.recreate_swapchain {
        let events = seq![
            FrameEvent::Begin,
            FrameEvent::CleanedUp,
            FrameEvent::Recreated(RecreateOutcome::UnsupportedDimensions),
        ];
        let e1 = events.drop_first();
        let e2 = e1.drop_first();
        let e3 = e2.drop_first();
        let c = b.step(FrameEvent::Recreated(RecreateOutcome::UnsupportedDimensions)).0;
        assert(e3.len() == 0);
        assert(c.run(e3) == c);
        assert(b.run(e2) == c);
        assert(a.run(e1) == c);
        assert(manager.run(events) == c);
        assert(c == manager);
    } else {
        let events = seq![
            FrameEvent::Begin,
            FrameEvent::CleanedUp,
            FrameEvent::Acquired(AcquireOutcome::OutOfDate),
            FrameEvent::Recreated(RecreateOutcome::UnsupportedDimensions),
        ];
        let e1 = events.drop_first();
        let e2 = e1.drop_first();
        let e3 = e2.drop_first();
        let e4 = e3.drop_first();
        let c = b.step(FrameEvent::Acquired(AcquireOutcome::OutOfDate)).0;
        let d = c.step(FrameEvent::Recreated(RecreateOutcome::UnsupportedDimensions)).0;
        assert(e4.len() == 0);
        assert(d.run(e4) == d);
        assert(c.run(e3) == d);
        assert(b.run(e2) == d);
        assert(a.run(e1) == d);
        assert(manager.run(events) == d);
        assert(d == manager);
    }
}

/// After the swapchain has been created anew there is one framebuffer for
/// each of its images, each of the size of its image and attached to the
/// render pass, the viewport has the size of the first image, and the flag
/// is cleared.
pub proof fn lemma_recreated_is_consistent(manager: RenderManagerView, outcome: RecreateOutcome)
    requires
        manager.recreated(outcome).1 is Recreated,
    ensures
        outcome is Created,
        manager.recreated(outcome).0.consistent(),
        !manager.recreated(outcome).0.recreate_swapchain,
        manager.recreated(outcome).0.swapchain == Some(outcome->swapchain@),
        manager.recreated(outcome).0.framebuffers.unwrap().len() == outcome->swapchain@.images.len(),
        forall|i: int|
            0 <= i < outcome->swapchain@.images.len() ==> {
                let framebuffer = #[trigger] manager.recreated(outcome).0.framebuffers.unwrap()[i];
                &&& framebuffer.image == outcome->swapchain@.images[i].handle
                &&& framebuffer.extent == outcome->swapchain@.images[i].extent
                &&& Some(framebuffer.render_pass) == manager.render_pass
            },
{
}

/// No step takes framebuffers or viewport out of line with the swapchain.
pub proof fn lemma_step_keeps_consistency(manager: RenderManagerView, event: FrameEvent)
    requires
        manager.consistent(),
    ensures
        manager.step(event).0.consistent(),
{
}

/// The flag that marks the swapchain for recreation, once set, is cleared by
/// nothing but a successful recreation.
pub proof fn lemma_flag_cleared_only_by_recreation(manager: RenderManagerView, event: FrameEvent)
    requires
        manager.recreate_swapchain,
        !manager.step(event).0.recreate_swapchain,
    ensures
        manager.started(),
        manager.phase is Recreating,
        event is Recreated,
        manager.recreated(event->Recreated_0).1 is Recreated,
{
}

/// A renderer that has been started stays started.
pub proof fn lemma_step_keeps_started(manager: RenderManagerView, event: FrameEvent)
    requires
        manager.started(),
    ensures
        manager.step(event).0.started(),
{
}

/// The completion of the last frame leaves the renderer only inside a
/// `Submit` action, and comes back only from the outcome of that
/// submission. It is never overwritten while the renderer holds it.
pub proof fn lemma_future_is_handed_over(manager: RenderManagerView, event: FrameEvent)
    requires
        manager.step(event).0.previous_frame_end != manager.previous_frame_end,
    ensures
        manager.started(),
        manager.previous_frame_end is Some ==> {
            &&& manager.step(event).0.previous_frame_end is None
            &&& manager.step(event).1 matches FrameAction::Submit { wait_on, .. }
            &&& Some(wait_on) == manager.previous_frame_end
        },
        manager.previous_frame_end is None ==> {
            &&& manager.phase is Submitting
            &&& event matches FrameEvent::Submitted(outcome)
            &&& manager.step(event).0.previous_frame_end == Some(
                RenderManagerView::future_after(outcome),
            )
        },
{
}

/// A frame is reported as presented exactly when the device has flushed it,
/// and the token of that flush is then what the renderer holds.
pub proof fn lemma_presented_iff_flushed(manager: RenderManagerView, event: FrameEvent)
    ensures
        manager.step(event).1 == FrameAction::Finish(FrameResult::Presented) <==> {
            &&& manager.started()
            &&& manager.phase is Submitting
            &&& event matches FrameEvent::Submitted(outcome)
            &&& outcome is Flushed
        },
        manager.step(event).1 == FrameAction::Finish(FrameResult::Presented) ==> {
            &&& event matches FrameEvent::Submitted(outcome)
            &&& outcome matches SubmitOutcome::Flushed(token)
            &&& manager.step(event).0.previous_frame_end == Some(FrameFuture::InFlight(token))
        },
{
}

/// Over any run of events, every completion that the renderer took over is
/// handed to the device to wait on once, in the order in which it came, and
/// before the next one is taken over; the one taken over last is the one
/// still held. So after N presented frames N tokens have been taken over,
/// and each but the last has been joined by the frame after it.
pub proof fn lemma_futures_are_conserved(manager: RenderManagerView, events: Seq<FrameEvent>)
    ensures
        manager.joined(events) + manager.run(events).held() == manager.held() + manager.stored(
            events,
        ),
    decreases events.len(),
{
    if events.len() == 0 {
        assert(manager.joined(events) + manager.run(events).held() =~= manager.held()
            + manager.stored(events));
    } else {
        let next = manager.step(events[0]).0;
        let action = manager.step(events[0]).1;
        let rest = events.drop_first();
        lemma_futures_are_conserved(next, rest);
        assert(RenderManagerView::joined_by(action) + next.held() =~= manager.held()
            + manager.stored_by(events[0]));
        assert(manager.joined(events) + manager.run(events).held() =~= RenderManagerView::joined_by(
            action,
        ) + (next.joined(rest) + next.run(rest).held()));
        assert(manager.held() + manager.stored(events) =~= (manager.held() + manager.stored_by(
            events[0],
        )) + next.stored(rest));
        assert(RenderManagerView::joined_by(action) + (next.held() + next.stored(rest)) =~= (
        RenderManagerView::joined_by(action) + next.held()) + next.stored(rest));
    }
}

/// Every step that the renderer accepts inside a frame brings the frame
/// nearer to its end, and the frame is over exactly when the answer is
/// `Finish`. A frame therefore takes at most eight steps. It asks for a new
/// swapchain at most twice, once for the mark and once for a stale
/// swapchain, and for an image at most twice.
pub proof fn lemma_frame_makes_progress(manager: RenderManagerView, event: FrameEvent)
    requires
        manager.started(),
        manager.step(event).1 != FrameAction::Rejected,
    ensures
        manager.phase is Idle ==> event is Begin && manager.step(event).0.phase is Cleaning,
        !(manager.phase is Idle) ==> RenderManagerView::steps_left(manager.step(event).0.phase)
            < RenderManagerView::steps_left(manager.phase),
        manager.step(event).1 is Finish <==> manager.step(event).0.phase is Idle,
        manager.step(event).1 is RecreateSwapchain <==> manager.step(event).0.phase is Recreating,
        manager.step(event).1 is AcquireImage <==> manager.step(event).0.phase is Acquiring,
{
}

/// A stale swapchain met at the first acquisition of a frame leads to one
/// attempt to create it anew and, if that succeeds, to one more
/// acquisition; a stale swapchain met at that second acquisition is fatal.
pub proof fn lemma_out_of_date_retries_once(manager: RenderManagerView, swapchain: Swapchain)
    requires
        manager.started(),
        manager.phase == (FramePhase::Acquiring { retry: false }),
        swapchain@.images.len() > 0,
    ensures
        ({
            let stale = manager.step(FrameEvent::Acquired(AcquireOutcome::OutOfDate));
            let anew = stale.0.step(FrameEvent::Recreated(RecreateOutcome::Created { swapchain }));
            let again = anew.0.step(FrameEvent::Acquired(AcquireOutcome::OutOfDate));
            &&& stale.1 == FrameAction::RecreateSwapchain
            &&& anew.1 == FrameAction::AcquireImage
            &&& anew.0.phase == (FramePhase::Acquiring { retry: true })
            &&& again.1 == FrameAction::Finish(FrameResult::Fatal(RenderError::Acquisition))
            &&& again.0.phase is Idle
        }),
{
}

/// The retry is owed whatever went before in the frame. In a frame that
/// begins with the recreation that the mark asked for, the acquisition that
/// follows is the first of the frame: a stale swapchain met there leads to
/// one more recreation and one retry, as in any other frame, and only a
/// stale swapchain at that retry is fatal.
pub proof fn lemma_marked_frame_retries_once(
    manager: RenderManagerView,
    first: Swapchain,
    second: Swapchain,
    image: AcquireOutcome,
)
    requires
        manager.started(),
        manager.phase is Idle,
        manager.recreate_swapchain,
        first@.images.len() > 0,
        second@.images.len() > 0,
        image matches AcquireOutcome::Image { image_index, .. } && image_index < second@.images.len(),
    ensures
        ({
            let begun = manager.step(FrameEvent::Begin);
            let cleaned = begun.0.step(FrameEvent::CleanedUp);
            let marked = cleaned.0.step(
                FrameEvent::Recreated(RecreateOutcome::Created { swapchain: first }),
            );
            let stale = marked.0.step(FrameEvent::Acquired(AcquireOutcome::OutOfDate));
            let anew = stale.0.step(
                FrameEvent::Recreated(RecreateOutcome::Created { swapchain: second }),
            );
            let again = anew.0.step(FrameEvent::Acquired(AcquireOutcome::OutOfDate));
            let drawn = anew.0.step(FrameEvent::Acquired(image));
            &&& cleaned.1 == FrameAction::RecreateSwapchain
            &&& marked.1 == FrameAction::AcquireImage
            &&& marked.0.phase == (FramePhase::Acquiring { retry: false })
            &&& stale.1 == FrameAction::RecreateSwapchain
            &&& anew.1 == FrameAction::AcquireImage
            &&& anew.0.phase == (FramePhase::Acquiring { retry: true })
            &&& anew.0.swapchain == Some(second@)
            &&& again.1 == FrameAction::Finish(FrameResult::Fatal(RenderError::Acquisition))
            &&& drawn.1 is Record
            &&& drawn.1->Record_0.image_index == image->image_index
            &&& drawn.1->Record_0.framebuffer.image == second@.images[image->image_index as int].handle
        }),
{
}

/// What the device reports in a frame that meets no trouble: the image it
/// gives out with the token of the acquisition, and the token of the flush.
pub struct SmoothFrame {
    pub image_index: usize,
    pub acquire_future: FutureToken,
    pub completion: FutureToken,
}

/// The events of a frame that meets no trouble.
pub open spec fn smooth_frame(frame: SmoothFrame) -> Seq<FrameEvent> {
    seq![
        FrameEvent::Begin,
        FrameEvent::CleanedUp,
        FrameEvent::Acquired(
            AcquireOutcome::Image {
                image_index: frame.image_index,
                suboptimal: false,
                acquire_future: frame.acquire_future,
            },
        ),
        FrameEvent::Recorded(RecordOutcome::Built),
        FrameEvent::Submitted(SubmitOutcome::Flushed(frame.completion)),
    ]
}

/// The events of one such frame after the other.
pub open spec fn smooth_frames(frames: Seq<SmoothFrame>) -> Seq<FrameEvent>
    decreases frames.len(),
{
    if frames.len() == 0 {
        Seq::empty()
    } else {
        smooth_frames(frames.drop_last()) + smooth_frame(frames.last())
    }
}

/// What the frame at place `k` of a run of presented frames waits on: the
/// completion of the frame before it, and what the renderer held at first
/// for the first.
pub open spec fn waited_on(first: FrameFuture, frames: Seq<SmoothFrame>, k: int) -> FrameFuture {
    if k == 0 {
        first
    } else {
        FrameFuture::InFlight(frames[k - 1].completion)
    }
}

/// Taking in one run of events after another is taking in both in a row.
pub proof fn lemma_run_in_two_parts(manager: RenderManagerView, head: Seq<FrameEvent>, tail: Seq<FrameEvent>)
    ensures
        manager.run(head + tail) == manager.run(head).run(tail),
        manager.joined(head + tail) == manager.joined(head) + manager.run(head).joined(tail),
        manager.stored(head + tail) == manager.stored(head) + manager.run(head).stored(tail),
    decreases head.len(),
{
    if head.len() == 0 {
        assert(head + tail =~= tail);
        assert(manager.joined(head) + manager.run(head).joined(tail) =~= manager.joined(tail));
        assert(manager.stored(head) + manager.run(head).stored(tail) =~= manager.stored(tail));
    } else {
        let next = manager.step(head[0]).0;
        assert((head + tail).drop_first() =~= head.drop_first() + tail);
        assert((head + tail)[0] == head[0]);
        lemma_run_in_two_parts(next, head.drop_first(), tail);
        assert(manager.joined(head + tail) =~= manager.joined(head) + manager.run(head).joined(tail));
        assert(manager.stored(head + tail) =~= manager.stored(head) + manager.run(head).stored(tail));
    }
}

/// A frame that meets no trouble waits on what the renderer held, leaves
/// the renderer holding the token of its own flush, and changes nothing
/// else.
pub proof fn lemma_smooth_frame(manager: RenderManagerView, frame: SmoothFrame)
    requires
        manager.started(),
        manager.phase is Idle,
        !manager.recreate_swapchain,
        frame.image_index < manager.framebuffers.unwrap().len(),
    ensures
        manager.run(smooth_frame(frame)) == (RenderManagerView {
            previous_frame_end: Some(FrameFuture::InFlight(frame.completion)),
            ..manager
        }),
        manager.joined(smooth_frame(frame)) == seq![manager.previous_frame_end.unwrap()],
        manager.stored(smooth_frame(frame)) == seq![FrameFuture::InFlight(frame.completion)],
{
    let e0 = smooth_frame(frame);
    let e1 = e0.drop_first();
    let e2 = e1.drop_first();
    let e3 = e2.drop_first();
    let e4 = e3.drop_first();
    let e5 = e4.drop_first();
    let s1 = manager.step(e0[0]).0;
    let s2 = s1.step(e1[0]).0;
    let s3 = s2.step(e2[0]).0;
    let s4 = s3.step(e3[0]).0;
    let s5 = s4.step(e4[0]).0;
    assert(e5.len() == 0);
    assert(s5.run(e5) == s5);
    assert(s4.run(e4) == s5);
    assert(s3.run(e3) == s5);
    assert(s2.run(e2) == s5);
    assert(s1.run(e1) == s5);
    assert(manager.run(e0) == s5);
    assert(s5.joined(e5) =~= Seq::<FrameFuture>::empty());
    assert(s4.joined(e4) =~= Seq::<FrameFuture>::empty());
    assert(s3.joined(e3) =~= seq![manager.previous_frame_end.unwrap()]);
    assert(s2.joined(e2) =~= seq![manager.previous_frame_end.unwrap()]);
    assert(s1.joined(e1) =~= seq![manager.previous_frame_end.unwrap()]);
    assert(manager.joined(e0) =~= seq![manager.previous_frame_end.unwrap()]);
    assert(s5.stored(e5) =~= Seq::<FrameFuture>::empty());
    assert(s4.stored(e4) =~= seq![FrameFuture::InFlight(frame.completion)]);
    assert(s3.stored(e3) =~= seq![FrameFuture::InFlight(frame.completion)]);
    assert(s2.stored(e2) =~= seq![FrameFuture::InFlight(frame.completion)]);
    assert(s1.stored(e1) =~= seq![FrameFuture::InFlight(frame.completion)]);
    assert(manager.stored(e0) =~= seq![FrameFuture::InFlight(frame.completion)]);
}

/// Any number of frames that meet no trouble, one after the other: as many
/// completions are taken over as frames are presented, one from each frame;
/// each frame waits on the completion of the frame before it, the first on
/// what the renderer held; and the renderer ends up holding the completion
/// of the last frame.
pub proof fn lemma_presented_frames(manager: RenderManagerView, frames: Seq<SmoothFrame>)
    requires
        manager.started(),
        manager.phase is Idle,
        !manager.recreate_swapchain,
        forall|k: int|
            0 <= k < frames.len() ==> (#[trigger] frames[k]).image_index
                < manager.framebuffers.unwrap().len(),
    ensures
        manager.stored(smooth_frames(frames)) == Seq::new(
            frames.len(),
            |k: int| FrameFuture::InFlight(frames[k].completion),
        ),
        manager.joined(smooth_frames(frames)) == Seq::new(
            frames.len(),
            |k: int| waited_on(manager.previous_frame_end.unwrap(), frames, k),
        ),
        manager.run(smooth_frames(frames)) == (RenderManagerView {
            previous_frame_end: Some(
                waited_on(manager.previous_frame_end.unwrap(), frames, frames.len() as int),
            ),
            ..manager
        }),
    decreases frames.len(),
{
    if frames.len() == 0 {
        assert(manager.stored(smooth_frames(frames)) =~= Seq::new(
            frames.len(),
            |k: int| FrameFuture::InFlight(frames[k].completion),
        ));
        assert(manager.joined(smooth_frames(frames)) =~= Seq::new(
            frames.len(),
            |k: int| waited_on(manager.previous_frame_end.unwrap(), frames, k),
        ));
    } else {
        let before = frames.drop_last();
        let last = frames.last();
        lemma_presented_frames(manager, before);
        let middle = manager.run(smooth_frames(before));
        lemma_smooth_frame(middle, last);
        lemma_run_in_two_parts(manager, smooth_frames(before), smooth_frame(last));
        assert(manager.stored(smooth_frames(frames)) =~= Seq::new(
            frames.len(),
            |k: int| FrameFuture::InFlight(frames[k].completion),
        ));
        assert(manager.joined(smooth_frames(frames)) =~= Seq::new(
            frames.len(),
            |k: int| waited_on(manager.previous_frame_end.unwrap(), frames, k),
        ));
    }
}

} // verus!
