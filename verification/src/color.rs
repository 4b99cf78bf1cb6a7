//! The pixel model of the blit's blend state: 8-bit RGBA colours, source-over
//! blending for the colour channels and max accumulation for the alpha
//! channel, in exact fixed-point integer arithmetic.

use vstd::prelude::*;
use vstd::arithmetic::div_mod::{lemma_div_is_ordered, lemma_div_pos_is_pos};

verus! {

/// One pixel, 8 bits per channel.
#[derive(Clone, Copy, Debug, PartialEq, Eq, Structural)]
pub struct Color8 {
    pub r: u8,
    pub g: u8,
    pub b: u8,
    pub a: u8,
}

/// Source-over for one colour channel in 8-bit fixed point:
/// `(src * src_alpha + dst * (255 - src_alpha)) / 255`.
pub open spec fn spec_blend_channel(sc: int, sa: int, dc: int) -> int {
    (sc * sa + dc * (255 - sa)) / 255
}

/// Max accumulation for the alpha channel: the composite keeps the larger of
/// the two opacities and so can only grow, never wrap or overshoot.
pub open spec fn spec_max_alpha(sa: int, da: int) -> int {
    if sa >= da {
        sa
    } else {
        da
    }
}

/// The full blend of a source pixel over a destination pixel, as the blit
/// pipeline's blend state computes it.
pub open spec fn spec_blend(src: Color8, dst: Color8) -> Color8 {
    Color8 {
        r: spec_blend_channel(src.r as int, src.a as int, dst.r as int) as u8,
        g: spec_blend_channel(src.g as int, src.a as int, dst.g as int) as u8,
        b: spec_blend_channel(src.b as int, src.a as int, dst.b as int) as u8,
        a: spec_max_alpha(src.a as int, dst.a as int) as u8,
    }
}

/// A blended colour channel stays within 8 bits.
pub proof fn lemma_blend_channel_bounds(sc: int, sa: int, dc: int)
    requires
        0 <= sc <= 255,
        0 <= sa <= 255,
        0 <= dc <= 255,
    ensures
        0 <= spec_blend_channel(sc, sa, dc) <= 255,
{
    assert(0 <= sc * sa + dc * (255 - sa) <= 65025) by (nonlinear_arith)
        requires
            0 <= sc <= 255,
            0 <= sa <= 255,
            0 <= dc <= 255,
    ;
    lemma_div_pos_is_pos(sc * sa + dc * (255 - sa), 255);
    lemma_div_is_ordered(sc * sa + dc * (255 - sa), 65025int, 255);
}

/// Blend one colour channel of a source pixel with alpha `sa` over a
/// destination channel.
pub fn blend_channel(sc: u8, sa: u8, dc: u8) -> (r: u8)
    ensures
        r as int == spec_blend_channel(sc as int, sa as int, dc as int),
{
    proof {
        lemma_blend_channel_bounds(sc as int, sa as int, dc as int);
        assert(sc as u32 * sa as u32 <= 255 * 255) by (nonlinear_arith)
            requires
                sc <= 255u8,
                sa <= 255u8,
        ;
        assert(dc as u32 * (255 - sa as u32) <= 255 * 255) by (nonlinear_arith)
            requires
                dc <= 255u8,
                sa <= 255u8,
        ;
    }
    ((sc as u32 * sa as u32 + dc as u32 * (255 - sa as u32)) / 255) as u8
}

/// Blend a source pixel over a destination pixel.
pub fn blend(src: Color8, dst: Color8) -> (r: Color8)
    ensures
        r == spec_blend(src, dst),
{
    proof {
        lemma_blend_channel_bounds(src.r as int, src.a as int, dst.r as int);
        lemma_blend_channel_bounds(src.g as int, src.a as int, dst.g as int);
        lemma_blend_channel_bounds(src.b as int, src.a as int, dst.b as int);
    }
    Color8 {
        r: blend_channel(src.r, src.a, dst.r),
        g: blend_channel(src.g, src.a, dst.g),
        b: blend_channel(src.b, src.a, dst.b),
        a: if src.a >= dst.a {
            src.a
        } else {
            dst.a
        },
    }
}

/// Max-accumulation law for the alpha channel: compositing the same source a
/// second time adds nothing further, the accumulated alpha never drops below
/// either input, and it never exceeds the largest representable value.
pub proof fn lemma_alpha_max_accumulation(src: Color8, dst: Color8)
    ensures
        spec_blend(src, spec_blend(src, dst)).a == spec_blend(src, dst).a,
        src.a <= spec_blend(src, dst).a,
        dst.a <= spec_blend(src, dst).a,
        spec_blend(src, dst).a <= 255,
{
}

} // verus!
