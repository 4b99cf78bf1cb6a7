//! The blit pipeline: the GPU state the widget builds once and caches — blend
//! state, sampler, load semantics, and the fixed full-screen-triangle draw —
//! together with its render operation on the model target. A small
//! interpreter for blend components proves that the configured blend state
//! computes exactly the source-over / max-accumulation pixel model the
//! compositing functions use.

use vstd::prelude::*;
use vstd::arithmetic::div_mod::lemma_div_multiples_vanish;
use crate::color::{spec_blend_channel, spec_max_alpha};
use crate::geometry::{Rect, Size2};
use crate::target::{composite_into, spec_composite, Texture};

verus! {

/// A blend factor, as the pipeline's colour target state names them.
#[derive(Clone, Copy, Debug, PartialEq, Eq, Structural)]
pub enum BlendFactor {
    Zero,
    One,
    SrcAlpha,
    OneMinusSrcAlpha,
}

/// A blend operation combining the two factored inputs.
#[derive(Clone, Copy, Debug, PartialEq, Eq, Structural)]
pub enum BlendOperation {
    Add,
    Max,
}

/// One blend component: how a single channel group is combined.
#[derive(Clone, Copy, Debug, PartialEq, Eq, Structural)]
pub struct BlendComponent {
    pub src_factor: BlendFactor,
    pub dst_factor: BlendFactor,
    pub operation: BlendOperation,
}

/// The full blend state: one component for the colour channels, one for
/// alpha.
#[derive(Clone, Copy, Debug, PartialEq, Eq, Structural)]
pub struct BlendState {
    pub color: BlendComponent,
    pub alpha: BlendComponent,
}

/// How the render pass treats the existing target contents.
#[derive(Clone, Copy, Debug, PartialEq, Eq, Structural)]
pub enum LoadOp {
    Load,
    Clear,
}

/// Sampler addressing outside the unit square.
#[derive(Clone, Copy, Debug, PartialEq, Eq, Structural)]
pub enum AddressMode {
    ClampToEdge,
    Repeat,
}

/// Sampler filtering.
#[derive(Clone, Copy, Debug, PartialEq, Eq, Structural)]
pub enum FilterMode {
    Nearest,
    Linear,
}

/// The sampler the blit shader reads the frame texture through.
#[derive(Clone, Copy, Debug, PartialEq, Eq, Structural)]
pub struct SamplerConfig {
    pub address_mode: AddressMode,
    pub mag_filter: FilterMode,
    pub min_filter: FilterMode,
}

/// The target texture format, carried as the host's opaque format code.
#[derive(Clone, Copy, Debug, PartialEq, Eq, Structural)]
pub struct TextureFormat {
    pub id: u32,
}

/// The one draw the blit issues: a full-screen triangle, no vertex buffer.
#[derive(Clone, Copy, Debug, PartialEq, Eq, Structural)]
pub struct DrawCall {
    pub vertices: u32,
    pub instances: u32,
}

/// The blend state the blit pipeline is built with: standard source-over for
/// the colour channels, max accumulation for alpha.
pub open spec fn spec_blit_blend() -> BlendState {
    BlendState {
        color: BlendComponent {
            src_factor: BlendFactor::SrcAlpha,
            dst_factor: BlendFactor::OneMinusSrcAlpha,
            operation: BlendOperation::Add,
        },
        alpha: BlendComponent {
            src_factor: BlendFactor::One,
            dst_factor: BlendFactor::One,
            operation: BlendOperation::Max,
        },
    }
}

/// The blit pipeline object: compiled once per widget instance, immutable
/// for the life of the enclosing resource storage. The live frame texture is
/// handed to `render` each call — rebinding the frame is the one piece of
/// per-frame work the render phase performs.
#[derive(Clone, Copy, Debug, PartialEq, Eq, Structural)]
pub struct Pipeline {
    pub format: TextureFormat,
    pub target_size: Size2,
    pub blend: BlendState,
    pub sampler: SamplerConfig,
    pub load_op: LoadOp,
    pub draw: DrawCall,
}

/// The exact configuration `Pipeline::new` must produce for a given target
/// format and viewport size.
pub open spec fn spec_blit_pipeline(format: TextureFormat, target_size: Size2) -> Pipeline {
    Pipeline {
        format,
        target_size,
        blend: spec_blit_blend(),
        sampler: SamplerConfig {
            address_mode: AddressMode::ClampToEdge,
            mag_filter: FilterMode::Linear,
            min_filter: FilterMode::Linear,
        },
        load_op: LoadOp::Load,
        draw: DrawCall { vertices: 3, instances: 1 },
    }
}

impl Pipeline {
    /// A pipeline is exactly the canonical blit configuration for its format
    /// and size.
    pub open spec fn wf(self) -> bool {
        self == spec_blit_pipeline(self.format, self.target_size)
    }

    /// Build the blit pipeline for the given target format and viewport
    /// size: source-over colour blending with max-accumulation alpha, a
    /// linear clamped-to-edge sampler, load-not-clear pass semantics, and a
    /// 3-vertex, 1-instance draw.
    pub fn new(format: TextureFormat, target_size: Size2) -> (p: Pipeline)
        ensures
            p == spec_blit_pipeline(format, target_size),
            p.wf(),
    {
        Pipeline {
            format,
            target_size,
            blend: BlendState {
                color: BlendComponent {
                    src_factor: BlendFactor::SrcAlpha,
                    dst_factor: BlendFactor::OneMinusSrcAlpha,
                    operation: BlendOperation::Add,
                },
                alpha: BlendComponent {
                    src_factor: BlendFactor::One,
                    dst_factor: BlendFactor::One,
                    operation: BlendOperation::Max,
                },
            },
            sampler: SamplerConfig {
                address_mode: AddressMode::ClampToEdge,
                mag_filter: FilterMode::Linear,
                min_filter: FilterMode::Linear,
            },
            load_op: LoadOp::Load,
            draw: DrawCall { vertices: 3, instances: 1 },
        }
    }

    /// Composite the frame into the target, scissored to the clip rectangle:
    /// the pass loads (never clears) the existing contents, so the blit sits
    /// on whatever the host already drew, and the one draw issued is the
    /// full-screen triangle.
    pub fn render(&self, frame: &Texture, target: &mut Texture, clip: Rect) -> (d: DrawCall)
        requires
            self.wf(),
            old(target)@.wf(),
            frame@.samplable(),
            clip.spec_within(old(target).width, old(target).height),
        ensures
            final(target)@ == spec_composite(old(target)@, clip, frame@),
            d == (DrawCall { vertices: 3, instances: 1 }),
    {
        composite_into(target, clip, frame);
        self.draw
    }
}

/// The scaled value a blend factor contributes, in 8-bit fixed point, for a
/// blend whose source alpha is `sa`.
pub open spec fn spec_factor(f: BlendFactor, sa: int) -> int {
    match f {
        BlendFactor::Zero => 0,
        BlendFactor::One => 255,
        BlendFactor::SrcAlpha => sa,
        BlendFactor::OneMinusSrcAlpha => 255 - sa,
    }
}

/// Evaluate one blend component on a source and destination channel value,
/// with source alpha `sa`: factor both inputs, combine, and rescale.
pub open spec fn spec_apply_component(c: BlendComponent, s: int, d: int, sa: int) -> int {
    let sv = s * spec_factor(c.src_factor, sa);
    let dv = d * spec_factor(c.dst_factor, sa);
    match c.operation {
        BlendOperation::Add => (sv + dv) / 255,
        BlendOperation::Max => (if sv >= dv {
            sv
        } else {
            dv
        }) / 255,
    }
}

/// The configured blend state computes exactly the pixel model: its colour
/// component is standard source-over, and its alpha component keeps the
/// larger of the two opacities.
pub proof fn lemma_blit_blend_semantics(s: int, d: int, sa: int, da: int)
    requires
        0 <= s <= 255,
        0 <= d <= 255,
        0 <= sa <= 255,
        0 <= da <= 255,
    ensures
        spec_apply_component(spec_blit_blend().color, s, d, sa) == spec_blend_channel(s, sa, d),
        spec_apply_component(spec_blit_blend().alpha, sa, da, sa) == spec_max_alpha(sa, da),
{
    lemma_div_multiples_vanish(sa, 255);
    lemma_div_multiples_vanish(da, 255);
    assert(sa * 255 == 255 * sa);
    assert(da * 255 == 255 * da);
}

} // verus!
