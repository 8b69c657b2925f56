//! The per-frame presentation protocol.
//!
//! One frame marches through acquire, encode, submit, present, in that
//! order and no other. The GPU work itself happens outside the library;
//! the loop that drives it keeps a [`FrameProtocol`] value and calls the
//! transition below for each step, so that an out-of-order step — above
//! all, presenting an image whose commands were never submitted — is ruled
//! out by the contracts rather than discovered at the driver.

use vstd::prelude::*;

verus! {

use crate::surface::SurfaceDims;

/// The phases one frame passes through, in order.
#[derive(Clone, Copy, PartialEq, Eq, Structural, Debug)]
pub enum FramePhase {
    /// Between frames; nothing is acquired.
    Idle,
    /// The next surface image is held.
    Acquired,
    /// A command encoder is open and passes are being recorded.
    Encoding,
    /// The recorded commands were handed to the queue, exactly once.
    Submitted,
    /// The acquired image was presented.
    Presented,
}

/// The protocol events that move a frame forward or close it out.
#[derive(Clone, Copy, PartialEq, Eq, Structural, Debug)]
pub enum FrameEvent {
    Acquire,
    BeginEncoding,
    Submit,
    Present,
    /// Close out a presented frame; the loop is ready for the next.
    FinishFrame,
    /// Release an acquired image without presenting it.
    DropFrame,
}

/// The legal transitions out of each phase, or nothing when the event is
/// out of order. A trace of these events may span any number of frames:
/// finishing or dropping a frame returns to the idle phase.
pub open spec fn phase_step(p: FramePhase, e: FrameEvent) -> Option<FramePhase> {
    match (p, e) {
        (FramePhase::Idle, FrameEvent::Acquire) => Some(FramePhase::Acquired),
        (FramePhase::Acquired, FrameEvent::BeginEncoding) => Some(FramePhase::Encoding),
        (FramePhase::Encoding, FrameEvent::Submit) => Some(FramePhase::Submitted),
        (FramePhase::Submitted, FrameEvent::Present) => Some(FramePhase::Presented),
        (FramePhase::Presented, FrameEvent::FinishFrame) => Some(FramePhase::Idle),
        (FramePhase::Acquired, FrameEvent::DropFrame) => Some(FramePhase::Idle),
        (FramePhase::Encoding, FrameEvent::DropFrame) => Some(FramePhase::Idle),
        _ => None,
    }
}

/// Run a trace of events from `p`, failing as soon as one event is out of
/// order.
pub open spec fn run_trace(p: FramePhase, t: Seq<FrameEvent>) -> Option<FramePhase>
    decreases t.len(),
{
    if t.len() == 0 {
        Some(p)
    } else {
        match run_trace(p, t.drop_last()) {
            Some(q) => phase_step(q, t.last()),
            None => None,
        }
    }
}

/// A valid trace that reaches the submitted phase does so by a submission
/// as its final event: no other event lands there.
proof fn lemma_submitted_trace_ends_with_submit(u: Seq<FrameEvent>)
    requires
        run_trace(FramePhase::Idle, u) == Some(FramePhase::Submitted),
    ensures
        u.len() >= 1,
        u[u.len() - 1] == FrameEvent::Submit,
{
    assert(u.len() >= 1);
    assert(phase_step(run_trace(FramePhase::Idle, u.drop_last()).unwrap(), u.last()) == Some(
        FramePhase::Submitted,
    ));
}

/// The ordering law of the frame protocol: in every trace the protocol
/// accepts — across any number of frames — each presentation stands
/// immediately after its frame's submission. Presenting before submitting
/// is impossible, because presentation steps only out of the submitted
/// phase, and only a submission steps into it.
pub proof fn lemma_present_preceded_by_submit(t: Seq<FrameEvent>, j: int)
    requires
        run_trace(FramePhase::Idle, t) is Some,
        0 <= j < t.len(),
        t[j] == FrameEvent::Present,
    ensures
        j >= 1,
        t[j - 1] == FrameEvent::Submit,
    decreases t.len(),
{
    let prefix = t.drop_last();
    assert(run_trace(FramePhase::Idle, prefix) is Some);
    if j == t.len() - 1 {
        assert(phase_step(run_trace(FramePhase::Idle, prefix).unwrap(), t.last()) is Some);
        assert(run_trace(FramePhase::Idle, prefix) == Some(FramePhase::Submitted));
        lemma_submitted_trace_ends_with_submit(prefix);
        assert(t[prefix.len() - 1] == FrameEvent::Submit);
    } else {
        lemma_present_preceded_by_submit(prefix, j);
        assert(t[j - 1] == prefix[j - 1]);
    }
}

/// Recovery the loop must perform after a failed acquisition.
#[derive(Clone, Copy, PartialEq, Eq, Structural, Debug)]
pub enum RecoveryAction {
    /// Reapply the current surface configuration, then retry the
    /// acquisition once.
    ReconfigureAndRetry,
    /// Give this frame up without crashing; the next frame may succeed.
    SkipFrame,
}

/// One frame's march through the protocol, with the acquisition retry
/// budget: a failed acquisition earns one reconfigure-and-retry, a second
/// failure skips the frame.
pub struct FrameProtocol {
    pub phase: FramePhase,
    pub acquire_failures: u32,
}

impl FrameProtocol {
    /// A fresh protocol, between frames.
    pub fn new() -> (p: FrameProtocol)
        ensures
            p.phase == FramePhase::Idle,
            p.acquire_failures == 0,
    {
        FrameProtocol { phase: FramePhase::Idle, acquire_failures: 0 }
    }

    /// The next surface image was acquired.
    pub fn acquire_ok(&mut self)
        requires
            old(self).phase == FramePhase::Idle,
        ensures
            Some(final(self).phase) == phase_step(old(self).phase, FrameEvent::Acquire),
            final(self).phase == FramePhase::Acquired,
            final(self).acquire_failures == 0,
    {
        self.phase = FramePhase::Acquired;
        self.acquire_failures = 0;
    }

    /// Acquisition failed (the surface was lost or outdated). The first
    /// failure of a frame asks the loop to reconfigure the surface with
    /// its last known dimensions and retry once; a failure after that
    /// retry gives the frame up.
    pub fn acquire_err(&mut self) -> (a: RecoveryAction)
        requires
            old(self).phase == FramePhase::Idle,
        ensures
            final(self).phase == FramePhase::Idle,
            old(self).acquire_failures == 0 ==> a == RecoveryAction::ReconfigureAndRetry
                && final(self).acquire_failures == 1,
            old(self).acquire_failures > 0 ==> a == RecoveryAction::SkipFrame
                && final(self).acquire_failures == 0,
    {
        if self.acquire_failures == 0 {
            self.acquire_failures = 1;
            RecoveryAction::ReconfigureAndRetry
        } else {
            self.acquire_failures = 0;
            RecoveryAction::SkipFrame
        }
    }

    /// A command encoder was created for the acquired image.
    pub fn begin_encoding(&mut self)
        requires
            old(self).phase == FramePhase::Acquired,
        ensures
            Some(final(self).phase) == phase_step(old(self).phase, FrameEvent::BeginEncoding),
            final(self).phase == FramePhase::Encoding,
            final(self).acquire_failures == old(self).acquire_failures,
    {
        self.phase = FramePhase::Encoding;
    }

    /// The encoder was finished and its command buffer handed to the
    /// queue. The phase moves on, so a frame cannot be submitted twice.
    pub fn submit(&mut self)
        requires
            old(self).phase == FramePhase::Encoding,
        ensures
            Some(final(self).phase) == phase_step(old(self).phase, FrameEvent::Submit),
            final(self).phase == FramePhase::Submitted,
            final(self).acquire_failures == old(self).acquire_failures,
    {
        self.phase = FramePhase::Submitted;
    }

    /// The acquired image was presented. Only a submitted frame may be
    /// presented: presentation is valid only once the recorded work is
    /// queued.
    pub fn present(&mut self)
        requires
            old(self).phase == FramePhase::Submitted,
        ensures
            Some(final(self).phase) == phase_step(old(self).phase, FrameEvent::Present),
            final(self).phase == FramePhase::Presented,
            final(self).acquire_failures == old(self).acquire_failures,
    {
        self.phase = FramePhase::Presented;
    }

    /// Close out a presented frame; the protocol is ready for the next.
    pub fn finish_frame(&mut self)
        requires
            old(self).phase == FramePhase::Presented,
        ensures
            Some(final(self).phase) == phase_step(old(self).phase, FrameEvent::FinishFrame),
            final(self).phase == FramePhase::Idle,
            final(self).acquire_failures == 0,
    {
        self.phase = FramePhase::Idle;
        self.acquire_failures = 0;
    }

    /// Drop a frame that was acquired but will not be presented. The image
    /// must be released before the next acquisition: at most one frame is
    /// ever live.
    pub fn drop_frame(&mut self)
        requires
            old(self).phase == FramePhase::Acquired || old(self).phase == FramePhase::Encoding,
        ensures
            Some(final(self).phase) == phase_step(old(self).phase, FrameEvent::DropFrame),
            final(self).phase == FramePhase::Idle,
            final(self).acquire_failures == 0,
    {
        self.phase = FramePhase::Idle;
        self.acquire_failures = 0;
    }
}

/// What a render pass does to its color attachment when it opens.
#[derive(Clone, Copy, PartialEq, Eq, Structural, Debug)]
pub enum LoadOp {
    /// Clear the attachment to the frame's initial state.
    Clear,
    /// Preserve whatever earlier passes wrote.
    Load,
}

/// The kinds of pass one frame may encode, in their fixed order.
#[derive(Clone, Copy, PartialEq, Eq, Structural, Debug)]
pub enum PassKind {
    /// An optional pass that only establishes the initial color and depth
    /// state.
    ClearPass,
    /// Opaque scene content, with the camera uniforms bound.
    GeometryPass,
    /// The UI overlay, drawn over the finished scene.
    OverlayPass,
}

/// One planned render pass: its kind and what it does to the shared color
/// attachment.
#[derive(Clone, Copy, PartialEq, Eq, Structural, Debug)]
pub struct PassDesc {
    pub kind: PassKind,
    pub color_load: LoadOp,
}

/// Every pass after the first preserves the attachment it shares: were a
/// later pass to clear, the earlier passes' work would be erased.
pub open spec fn passes_preserve_prior_work(passes: Seq<PassDesc>) -> bool {
    forall|i: int| 1 <= i < passes.len() ==> passes[i].color_load == LoadOp::Load
}

/// The fixed pass order of one frame: an optional clear pass, an optional
/// geometry pass, and always the overlay pass last. The first pass that is
/// not the overlay clears; the overlay always loads, and so does every
/// pass after the first.
pub open spec fn spec_frame_passes(include_clear: bool, include_geometry: bool) -> Seq<PassDesc> {
    let head: Seq<PassDesc> = if include_clear {
        seq![PassDesc { kind: PassKind::ClearPass, color_load: LoadOp::Clear }]
    } else {
        Seq::empty()
    };
    let mid: Seq<PassDesc> = if include_geometry {
        seq![
            PassDesc {
                kind: PassKind::GeometryPass,
                color_load: if include_clear {
                    LoadOp::Load
                } else {
                    LoadOp::Clear
                },
            },
        ]
    } else {
        Seq::empty()
    };
    head + mid + seq![PassDesc { kind: PassKind::OverlayPass, color_load: LoadOp::Load }]
}

/// Plan the passes of one frame. The overlay pass is always encoded and
/// always last; whichever pass comes first may clear, and every later pass
/// loads what stands in the attachment.
pub fn plan_frame_passes(include_clear: bool, include_geometry: bool) -> (passes: Vec<PassDesc>)
    ensures
        passes@ == spec_frame_passes(include_clear, include_geometry),
        passes_preserve_prior_work(passes@),
        passes@.len() >= 1,
        passes@[passes@.len() - 1].kind == PassKind::OverlayPass,
        passes@[passes@.len() - 1].color_load == LoadOp::Load,
{
    let mut passes: Vec<PassDesc> = Vec::new();
    if include_clear {
        passes.push(PassDesc { kind: PassKind::ClearPass, color_load: LoadOp::Clear });
    }
    if include_geometry {
        let load = if include_clear {
            LoadOp::Load
        } else {
            LoadOp::Clear
        };
        passes.push(PassDesc { kind: PassKind::GeometryPass, color_load: load });
    }
    passes.push(PassDesc { kind: PassKind::OverlayPass, color_load: LoadOp::Load });
    proof {
        assert(passes@ =~= spec_frame_passes(include_clear, include_geometry));
    }
    passes
}

/// An event as the window system reports it, reduced to what the loop
/// decides on.
#[derive(Clone, Copy, PartialEq, Eq, Structural, Debug)]
pub enum LoopEvent {
    /// The user asked to close the window.
    CloseRequested,
    /// The client area changed size.
    Resized(SurfaceDims),
    /// The platform finished delivering this round of events.
    MainEventsCleared,
    /// The platform asks for the window contents to be drawn.
    RedrawRequested,
    /// Any other window event.
    Other,
}

/// What the loop does with one event.
#[derive(Clone, Copy, PartialEq, Eq, Structural, Debug)]
pub enum LoopAction {
    /// Leave the event loop.
    Exit,
    /// Resize the presentation surface to the new client-area size and
    /// apply the returned configuration.
    ResizeSurface(SurfaceDims),
    /// Ask the window for a redraw, so that every settled round of events
    /// yields a frame.
    RequestRedraw,
    /// Render one frame now.
    RenderFrame,
    /// Nothing to do.
    Ignore,
}

/// The loop's response to one event. Window events are offered to the UI
/// overlay first; one the overlay consumed is dropped here.
pub open spec fn spec_dispatch(ev: LoopEvent, ui_consumed: bool) -> LoopAction {
    match ev {
        LoopEvent::CloseRequested => if ui_consumed {
            LoopAction::Ignore
        } else {
            LoopAction::Exit
        },
        LoopEvent::Resized(dims) => if ui_consumed {
            LoopAction::Ignore
        } else {
            LoopAction::ResizeSurface(dims)
        },
        LoopEvent::MainEventsCleared => LoopAction::RequestRedraw,
        LoopEvent::RedrawRequested => LoopAction::RenderFrame,
        LoopEvent::Other => LoopAction::Ignore,
    }
}

/// Decide the loop's response to one event.
pub fn dispatch_event(ev: &LoopEvent, ui_consumed: bool) -> (a: LoopAction)
    ensures
        a == spec_dispatch(*ev, ui_consumed),
{
    match ev {
        LoopEvent::CloseRequested => {
            if ui_consumed {
                LoopAction::Ignore
            } else {
                LoopAction::Exit
            }
        },
        LoopEvent::Resized(dims) => {
            if ui_consumed {
                LoopAction::Ignore
            } else {
                LoopAction::ResizeSurface(*dims)
            }
        },
        LoopEvent::MainEventsCleared => LoopAction::RequestRedraw,
        LoopEvent::RedrawRequested => LoopAction::RenderFrame,
        LoopEvent::Other => LoopAction::Ignore,
    }
}

} // verus!
