//! The per-draw-call frame primitive: an ephemeral snapshot of at most one
//! received frame, alive for a single prepare + render pass. With no frame
//! ready it still constructs and renders as a no-op — the common steady
//! state when the engine has produced nothing new since the last GUI frame.

use vstd::prelude::*;
use crate::geometry::{Rect, Size2};
use crate::pipeline::{spec_blit_pipeline, Pipeline, TextureFormat};
use crate::target::{spec_composite, TexData, Texture};

verus! {

/// The view of an optional frame texture.
pub open spec fn spec_opt_frame(o: Option<Texture>) -> Option<TexData> {
    match o {
        Some(t) => Some(t@),
        None => None,
    }
}

/// What one render pass does to the target, and how many blit draw calls it
/// issues: one when a frame is held, none otherwise.
pub open spec fn spec_rendered(frame: Option<TexData>, target: TexData, clip: Rect) -> (
    TexData,
    u32,
) {
    match frame {
        Some(f) => (spec_composite(target, clip, f), 1u32),
        None => (target, 0u32),
    }
}

/// The immutable per-draw-call snapshot: the frame texture to composite this
/// cycle, if one arrived.
pub struct FramePrimitive {
    pub frame: Option<Texture>,
}

impl FramePrimitive {
    /// Whether the held frame, if any, is one the blit can sample.
    pub open spec fn wf(self) -> bool {
        self.frame matches Some(f) ==> f@.samplable()
    }

    /// Lazily build the cached blit pipeline: constructed exactly once, on
    /// the first prepare, and immutable thereafter for the lifetime of the
    /// storage.
    pub fn prepare(
        &self,
        cache: &mut Option<Pipeline>,
        format: TextureFormat,
        target_size: Size2,
    )
        requires
            (*old(cache)) matches Some(p) ==> p.wf(),
        ensures
            (*old(cache)) is Some ==> *final(cache) == *old(cache),
            (*old(cache)) is None ==> *final(cache) == Some(
                spec_blit_pipeline(format, target_size),
            ),
            (*final(cache)) matches Some(p) && p.wf(),
    {
        if cache.is_none() {
            *cache = Some(Pipeline::new(format, target_size));
        }
    }

    /// Render the snapshot into the target, scissored to the clip rectangle.
    /// With no frame held this is a no-op issuing zero draw calls; with a
    /// frame it issues exactly one blit draw, compositing onto the loaded
    /// target contents. Prepare always runs before render in the same cycle,
    /// so a missing cached pipeline is a contract violation, not a runtime
    /// error.
    pub fn render(&self, cache: &Option<Pipeline>, target: &mut Texture, clip: Rect) -> (draws:
        u32)
        requires
            (*cache) matches Some(p) && p.wf(),
            self.wf(),
            old(target)@.wf(),
            clip.spec_within(old(target).width, old(target).height),
        ensures
            (final(target)@, draws) == spec_rendered(
                spec_opt_frame(self.frame),
                old(target)@,
                clip,
            ),
            self.frame is None ==> final(target)@ == old(target)@ && draws == 0,
    {
        match (&self.frame, cache) {
            (Some(frame), Some(pipeline)) => {
                let _ = pipeline.render(frame, target, clip);
                1
            },
            _ => 0,
        }
    }
}

} // verus!
