//! The program adapter: the glue satisfying the host GUI's widget contract.
//! It translates lifecycle events into engine ticks and redraw requests,
//! forwards pointer, keyboard and touch input into the input crossing, and
//! builds the per-draw-call frame primitive from the handoff channel. Every
//! event of the host's taxonomy is reported as captured.

use vstd::prelude::*;
use crate::event::{CursorKind, EventStatus, InputEvent, InputKind};
use crate::geometry::Rect;
use crate::primitive::{spec_opt_frame, spec_rendered, FramePrimitive};
use crate::state::{
    spec_forwarded, spec_frame_taken, spec_initialized, spec_published, spec_ticked,
    InstanceState, InstanceView,
};
use crate::target::TexData;

verus! {

/// What one update call answers the host: whether the event was consumed,
/// and whether another redraw should be scheduled for the next frame.
#[derive(Clone, Copy, Debug, PartialEq, Eq, Structural)]
pub struct UpdateOutcome {
    pub status: EventStatus,
    pub redraw_requested: bool,
}

/// The state transition and answer of one update call: initialize on first
/// contact, then either tick the engine and ask for the next frame (redraw
/// request) or forward the input event towards the engine.
pub open spec fn spec_update(v: InstanceView, e: InputEvent) -> (InstanceView, UpdateOutcome) {
    let v1 = spec_initialized(v);
    if e.kind is RedrawRequested {
        (
            spec_ticked(v1),
            UpdateOutcome { status: EventStatus::Captured, redraw_requested: true },
        )
    } else {
        (
            spec_forwarded(v1, e),
            UpdateOutcome { status: EventStatus::Captured, redraw_requested: false },
        )
    }
}

/// The state transition and received frame of one draw call: initialize on
/// first contact, then take at most one frame from the handoff channel.
pub open spec fn spec_draw(v: InstanceView) -> (InstanceView, Option<TexData>) {
    spec_frame_taken(spec_initialized(v))
}

/// Handle one event of the host's input taxonomy. A redraw request advances
/// the engine exactly one tick and schedules the next frame, keeping the
/// engine in lockstep with host redraws; pointer, keyboard and touch events
/// are forwarded into the input crossing, fire-and-forget. Every event is
/// captured.
pub fn update(state: &mut InstanceState, event: InputEvent) -> (r: UpdateOutcome)
    ensures
        final(state)@ == spec_update(old(state)@, event).0,
        r == spec_update(old(state)@, event).1,
        r.status is Captured,
{
    state.ensure_initialized();
    match event.kind {
        InputKind::RedrawRequested => {
            state.tick();
            UpdateOutcome { status: EventStatus::Captured, redraw_requested: true }
        },
        _ => {
            state.forward_input(event);
            UpdateOutcome { status: EventStatus::Captured, redraw_requested: false }
        },
    }
}

/// Build the per-draw-call primitive: read at most one frame from the
/// handoff channel, never blocking — no frame ready yields a primitive that
/// renders as a no-op.
pub fn draw(state: &mut InstanceState) -> (p: FramePrimitive)
    ensures
        final(state)@ == spec_draw(old(state)@).0,
        spec_opt_frame(p.frame) == spec_draw(old(state)@).1,
{
    state.ensure_initialized();
    FramePrimitive { frame: state.take_frame() }
}

/// The cursor the widget shows over its bounds.
pub fn mouse_interaction() -> (r: CursorKind)
    ensures
        r == CursorKind::Pointer,
{
    CursorKind::Pointer
}

/// A frame published before a draw cycle and not yet consumed is received
/// by exactly one draw: the first draw of the cycle returns it, and a
/// second draw returns nothing.
pub proof fn lemma_published_frame_drawn_once(v: InstanceView, f: TexData)
    requires
        v matches InstanceView::Running { frame_producer_alive: true, frame_consumer_alive: true, .. },
    ensures
        spec_draw(spec_published(v, f)).1 == Some(f),
        spec_draw(spec_draw(spec_published(v, f)).0).1 is None,
{
}

/// When two frames are published before any draw, the draw cycle observes
/// only the most recently published one — there is no backlog.
pub proof fn lemma_latest_published_wins(v: InstanceView, f1: TexData, f2: TexData)
    requires
        v matches InstanceView::Running { frame_producer_alive: true, frame_consumer_alive: true, .. },
    ensures
        spec_draw(spec_published(spec_published(v, f1), f2)).1 == Some(f2),
{
}

/// Whether no frame is pending in the handoff slot (trivially true outside
/// the running state, where no channel exists).
pub open spec fn spec_no_frame_ready(v: InstanceView) -> bool {
    match v {
        InstanceView::Running { frame, .. } => frame is None,
        _ => true,
    }
}

/// The state after a sequence of update calls, one per event.
pub open spec fn spec_run_events(v: InstanceView, es: Seq<InputEvent>) -> InstanceView
    decreases es.len(),
{
    if es.len() == 0 {
        v
    } else {
        spec_run_events(spec_update(v, es[0]).0, es.drop_first())
    }
}

/// Lockstep on a running instance: a sequence of redraw events advances the
/// engine by exactly one tick per event, never more, never fewer.
pub proof fn lemma_redraws_tick_lockstep(v: InstanceView, es: Seq<InputEvent>)
    requires
        v is Running,
        v->Running_ticks + es.len() <= u64::MAX,
        forall|i: int| 0 <= i < es.len() ==> (#[trigger] es[i]).kind is RedrawRequested,
    ensures
        spec_run_events(v, es) is Running,
        spec_run_events(v, es)->Running_ticks == v->Running_ticks + es.len(),
    decreases es.len(),
{
    if es.len() > 0 {
        lemma_redraws_tick_lockstep(spec_update(v, es[0]).0, es.drop_first());
    }
}

/// Lockstep from first contact: the first redraw event initializes the
/// instance and ticks once, and every further redraw ticks exactly once
/// more, so the engine has run one tick per host redraw.
pub proof fn lemma_fresh_engine_lockstep(es: Seq<InputEvent>)
    requires
        es.len() >= 1,
        es.len() <= u64::MAX,
        forall|i: int| 0 <= i < es.len() ==> (#[trigger] es[i]).kind is RedrawRequested,
    ensures
        spec_run_events(InstanceView::Uninitialized, es) is Running,
        spec_run_events(InstanceView::Uninitialized, es)->Running_ticks == es.len(),
{
    let v1 = spec_update(InstanceView::Uninitialized, es[0]).0;
    lemma_redraws_tick_lockstep(v1, es.drop_first());
}

/// No update call ever publishes a frame: the handoff slot stays empty
/// through initialization, ticking and input forwarding alike.
pub proof fn lemma_update_publishes_nothing(v: InstanceView, e: InputEvent)
    requires
        spec_no_frame_ready(v),
    ensures
        spec_no_frame_ready(spec_update(v, e).0),
{
}

/// For any sequence of redraw (or any other input) events with no frame
/// ever published, the draw cycle receives no frame and its render pass
/// performs zero blit draw calls, leaving every target pixel untouched.
pub proof fn lemma_no_frames_no_blits(
    v: InstanceView,
    es: Seq<InputEvent>,
    target: TexData,
    clip: Rect,
)
    requires
        spec_no_frame_ready(v),
    ensures
        spec_no_frame_ready(spec_run_events(v, es)),
        spec_draw(spec_run_events(v, es)).1 is None,
        spec_rendered(spec_draw(spec_run_events(v, es)).1, target, clip) == (target, 0u32),
    decreases es.len(),
{
    if es.len() == 0 {
    } else {
        lemma_update_publishes_nothing(v, es[0]);
        lemma_no_frames_no_blits(spec_update(v, es[0]).0, es.drop_first(), target, clip);
    }
}

} // verus!
