//! The per-widget instance state: a single tagged value instead of a bundle
//! of independently optional fields, so no invalid partial initialization
//! can exist. It owns the engine instance and both channel crossings, is
//! created lazily on first use, and degrades to a permanently blank state if
//! engine construction fails — never a crash of the host.

use vstd::prelude::*;
use crate::channel::{FrameChannel, InputChannel};
use crate::event::InputEvent;
use crate::target::{TexData, Texture};

verus! {

/// The embedded engine instance, as the widget sees it: opaque, owned
/// exclusively, advanced by exactly one tick per redraw event.
pub struct Engine {
    pub ticks: u64,
}

/// The tick counter after one advance; it saturates rather than wraps, so a
/// tick is safe in every state.
pub open spec fn spec_next_tick(t: u64) -> u64 {
    if t < u64::MAX {
        (t + 1) as u64
    } else {
        t
    }
}

impl Engine {
    /// A freshly constructed engine has run no ticks.
    pub fn new() -> (e: Engine)
        ensures
            e.ticks == 0,
    {
        Engine { ticks: 0 }
    }

    /// Advance the simulation by one step.
    pub fn tick(&mut self)
        ensures
            final(self).ticks == spec_next_tick(old(self).ticks),
    {
        if self.ticks < u64::MAX {
            self.ticks = self.ticks + 1;
        }
    }
}

/// The mathematical view of the instance state.
#[verifier::ext_equal]
pub enum InstanceView {
    Uninitialized,
    Running {
        ticks: u64,
        inputs: Seq<InputEvent>,
        input_consumer_alive: bool,
        frame: Option<TexData>,
        frame_producer_alive: bool,
        frame_consumer_alive: bool,
    },
    Failed,
}

/// The instance state machine: `Uninitialized` until the first draw or
/// update, then `Running` with the engine and both channel crossings, or
/// `Failed` forever if the engine could not be built.
pub enum InstanceState {
    Uninitialized,
    Running { engine: Engine, input: InputChannel<InputEvent>, frames: FrameChannel<Texture> },
    Failed,
}

impl View for InstanceState {
    type V = InstanceView;

    open spec fn view(&self) -> InstanceView {
        match self {
            InstanceState::Uninitialized => InstanceView::Uninitialized,
            InstanceState::Running { engine, input, frames } => InstanceView::Running {
                ticks: engine.ticks,
                inputs: input.queue@,
                input_consumer_alive: input.consumer_alive,
                frame: match frames.slot {
                    Some(t) => Some(t@),
                    None => None,
                },
                frame_producer_alive: frames.producer_alive,
                frame_consumer_alive: frames.consumer_alive,
            },
            InstanceState::Failed => InstanceView::Failed,
        }
    }
}

/// The state after `ensure_initialized`: a fresh running instance when
/// nothing existed yet, and exactly the old state otherwise.
pub open spec fn spec_initialized(v: InstanceView) -> InstanceView {
    if v is Uninitialized {
        InstanceView::Running {
            ticks: 0,
            inputs: Seq::empty(),
            input_consumer_alive: true,
            frame: None,
            frame_producer_alive: true,
            frame_consumer_alive: true,
        }
    } else {
        v
    }
}

/// The state after a failed engine construction: permanently blank.
pub open spec fn spec_failed(v: InstanceView) -> InstanceView {
    if v is Uninitialized {
        InstanceView::Failed
    } else {
        v
    }
}

/// The state after one engine tick: only a running engine advances.
pub open spec fn spec_ticked(v: InstanceView) -> InstanceView {
    match v {
        InstanceView::Running {
            ticks,
            inputs,
            input_consumer_alive,
            frame,
            frame_producer_alive,
            frame_consumer_alive,
        } => InstanceView::Running {
            ticks: spec_next_tick(ticks),
            inputs,
            input_consumer_alive,
            frame,
            frame_producer_alive,
            frame_consumer_alive,
        },
        _ => v,
    }
}

/// The state after forwarding one input event into the input crossing:
/// appended in order while the engine lives, silently dropped otherwise.
pub open spec fn spec_forwarded(v: InstanceView, e: InputEvent) -> InstanceView {
    match v {
        InstanceView::Running {
            ticks,
            inputs,
            input_consumer_alive,
            frame,
            frame_producer_alive,
            frame_consumer_alive,
        } => InstanceView::Running {
            ticks,
            inputs: if input_consumer_alive {
                inputs.push(e)
            } else {
                inputs
            },
            input_consumer_alive,
            frame,
            frame_producer_alive,
            frame_consumer_alive,
        },
        _ => v,
    }
}

/// The state after the engine publishes a frame: the handoff slot is
/// overwritten (latest wins) while the draw side lives.
pub open spec fn spec_published(v: InstanceView, f: TexData) -> InstanceView {
    match v {
        InstanceView::Running {
            ticks,
            inputs,
            input_consumer_alive,
            frame,
            frame_producer_alive,
            frame_consumer_alive,
        } => InstanceView::Running {
            ticks,
            inputs,
            input_consumer_alive,
            frame: if frame_consumer_alive {
                Some(f)
            } else {
                frame
            },
            frame_producer_alive,
            frame_consumer_alive,
        },
        _ => v,
    }
}

/// The state and result of taking the pending frame for one draw cycle: the
/// slot drains, and a dead engine side answers exactly like an empty slot.
pub open spec fn spec_frame_taken(v: InstanceView) -> (InstanceView, Option<TexData>) {
    match v {
        InstanceView::Running {
            ticks,
            inputs,
            input_consumer_alive,
            frame,
            frame_producer_alive,
            frame_consumer_alive,
        } => (
            InstanceView::Running {
                ticks,
                inputs,
                input_consumer_alive,
                frame: None,
                frame_producer_alive,
                frame_consumer_alive,
            },
            if frame_producer_alive {
                frame
            } else {
                None
            },
        ),
        _ => (v, None),
    }
}

/// The state and result of the engine's own loop taking the oldest
/// forwarded input event: delivery follows send order.
pub open spec fn spec_input_taken(v: InstanceView) -> (InstanceView, Option<InputEvent>) {
    match v {
        InstanceView::Running {
            ticks,
            inputs,
            input_consumer_alive,
            frame,
            frame_producer_alive,
            frame_consumer_alive,
        } => if inputs.len() == 0 {
            (v, None)
        } else {
            (
                InstanceView::Running {
                    ticks,
                    inputs: inputs.drop_first(),
                    input_consumer_alive,
                    frame,
                    frame_producer_alive,
                    frame_consumer_alive,
                },
                Some(inputs[0]),
            )
        },
        _ => (v, None),
    }
}

impl InstanceState {
    /// A widget starts with no engine instance.
    pub fn new() -> (s: InstanceState)
        ensures
            s@ is Uninitialized,
    {
        InstanceState::Uninitialized
    }

    /// Construct the engine instance and both channel crossings exactly
    /// once; idempotent on every later call, and a no-op after a failed
    /// construction.
    pub fn ensure_initialized(&mut self)
        ensures
            final(self)@ == spec_initialized(old(self)@),
    {
        let uninit = match self {
            InstanceState::Uninitialized => true,
            _ => false,
        };
        if uninit {
            *self = InstanceState::Running {
                engine: Engine::new(),
                input: InputChannel::new(),
                frames: FrameChannel::new(),
            };
        }
    }

    /// Record that engine construction failed: the widget stays permanently
    /// in a blank-render state instead of crashing the host.
    pub fn fail_initialization(&mut self)
        ensures
            final(self)@ == spec_failed(old(self)@),
    {
        let uninit = match self {
            InstanceState::Uninitialized => true,
            _ => false,
        };
        if uninit {
            *self = InstanceState::Failed;
        }
    }

    /// Advance the engine by one step; safe in every state — a no-op when
    /// initialization has not occurred or has failed.
    pub fn tick(&mut self)
        ensures
            final(self)@ == spec_ticked(old(self)@),
    {
        match self {
            InstanceState::Running { engine, .. } => {
                engine.tick();
            },
            _ => {},
        }
    }

    /// Forward one input event towards the engine instance, fire-and-forget.
    pub fn forward_input(&mut self, e: InputEvent)
        ensures
            final(self)@ == spec_forwarded(old(self)@, e),
    {
        match self {
            InstanceState::Running { input, .. } => {
                input.send(e);
            },
            _ => {},
        }
    }

    /// The engine side publishes its latest rendered frame into the handoff
    /// channel; any undrawn previous frame is dropped.
    pub fn publish_frame(&mut self, f: Texture)
        ensures
            final(self)@ == spec_published(old(self)@, f@),
    {
        match self {
            InstanceState::Running { frames, .. } => {
                frames.send_frame(f);
            },
            _ => {},
        }
    }

    /// The engine instance's own loop takes the oldest forwarded input
    /// event, in send order, never blocking.
    pub fn next_input(&mut self) -> (r: Option<InputEvent>)
        ensures
            final(self)@ == spec_input_taken(old(self)@).0,
            r == spec_input_taken(old(self)@).1,
    {
        match self {
            InstanceState::Running { input, .. } => input.try_receive(),
            _ => None,
        }
    }

    /// Take the pending frame for this draw cycle, never blocking: nothing
    /// ready, or a dead engine side, answers with no frame.
    pub fn take_frame(&mut self) -> (r: Option<Texture>)
        ensures
            final(self)@ == spec_frame_taken(old(self)@).0,
            (match r {
                Some(t) => spec_frame_taken(old(self)@).1 == Some(t@),
                None => spec_frame_taken(old(self)@).1 is None,
            }),
    {
        match self {
            InstanceState::Running { frames, .. } => frames.try_receive_frame(),
            _ => None,
        }
    }
}

/// Initialization is idempotent: running it on an already initialized (or
/// failed) instance changes nothing.
pub proof fn lemma_initialize_idempotent(v: InstanceView)
    ensures
        spec_initialized(spec_initialized(v)) == spec_initialized(v),
{
}

} // verus!
