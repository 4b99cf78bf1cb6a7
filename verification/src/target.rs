//! The pixel-level model of a 2-D RGBA texture and of the blit itself:
//! sampling the received frame scaled to fill the clip rectangle, blending
//! each covered target pixel, and leaving every pixel outside the scissor
//! untouched. The render pass loads (never clears) the existing target
//! contents, which is what lets the blit composite onto whatever the host
//! already drew.

use vstd::prelude::*;
use vstd::arithmetic::div_mod::{lemma_div_pos_is_pos, lemma_multiply_divide_lt};
use vstd::arithmetic::mul::{lemma_mul_nonnegative, lemma_mul_strict_inequality};
use crate::color::{blend, spec_blend, Color8};
use crate::geometry::Rect;

verus! {

/// The mathematical contents of a texture: its size and its pixels in
/// row-major order.
#[verifier::ext_equal]
pub struct TexData {
    pub width: u32,
    pub height: u32,
    pub pixels: Seq<Color8>,
}

impl TexData {
    /// The pixel vector covers the full grid.
    pub open spec fn wf(self) -> bool {
        self.pixels.len() == self.width * self.height
    }

    /// A texture the blit can sample from: well formed and not degenerate
    /// (the host never hands out zero-sized frame textures).
    pub open spec fn samplable(self) -> bool {
        &&& self.wf()
        &&& self.width > 0
        &&& self.height > 0
    }
}

/// A CPU-side texture: the model of both the frame crossing the handoff
/// channel and the target colour attachment the blit writes into.
pub struct Texture {
    pub width: u32,
    pub height: u32,
    pub pixels: Vec<Color8>,
}

impl View for Texture {
    type V = TexData;

    open spec fn view(&self) -> TexData {
        TexData { width: self.width, height: self.height, pixels: self.pixels@ }
    }
}

impl Texture {
    /// Build a texture filled with one colour, as the pipeline's placeholder
    /// texture is baked at construction time.
    pub fn filled(width: u32, height: u32, fill: Color8) -> (t: Texture)
        requires
            width * height <= usize::MAX,
        ensures
            t@.wf(),
            t@.width == width,
            t@.height == height,
            forall|i: int| 0 <= i < t@.pixels.len() ==> t@.pixels[i] == fill,
    {
        let n: usize = (width as usize) * (height as usize);
        let mut pixels: Vec<Color8> = Vec::new();
        let mut i: usize = 0;
        while i < n
            invariant
                i <= n,
                n == width * height,
                pixels@.len() == i,
                forall|j: int| 0 <= j < i ==> pixels@[j] == fill,
            decreases n - i,
        {
            pixels.push(fill);
            i += 1;
        }
        Texture { width, height, pixels }
    }
}

/// The source coordinate a target coordinate maps to when the frame is
/// scaled to fill the clip rectangle: `(t - off) * src_len / clip_len`.
pub open spec fn spec_src_coord(t: int, off: int, clip_len: int, src_len: int) -> int {
    (t - off) * src_len / clip_len
}

/// A coordinate inside the clip rectangle maps to a coordinate inside the
/// source texture.
pub proof fn lemma_src_coord_bounds(t: int, off: int, clip_len: int, src_len: int)
    requires
        off <= t < off + clip_len,
        0 < src_len,
    ensures
        0 <= spec_src_coord(t, off, clip_len, src_len) < src_len,
{
    let a = t - off;
    lemma_mul_nonnegative(a, src_len);
    lemma_div_pos_is_pos(a * src_len, clip_len);
    lemma_mul_strict_inequality(a, clip_len, src_len);
    lemma_multiply_divide_lt(a * src_len, clip_len, src_len);
}

/// A pair of in-range coordinates gives an in-range row-major pixel index.
pub proof fn lemma_pixel_index_bounds(sx: int, sy: int, w: int, h: int)
    requires
        0 <= sx < w,
        0 <= sy < h,
    ensures
        0 <= sy * w + sx < w * h,
{
    assert(0 <= sy * w + sx < w * h) by (nonlinear_arith)
        requires
            0 <= sx < w,
            0 <= sy < h,
    ;
}

/// The frame pixel sampled for the target pixel at column `x`, row `y` of
/// the clip rectangle (nearest source pixel under scale-to-fill mapping).
pub open spec fn spec_sample(frame: TexData, clip: Rect, x: int, y: int) -> Color8 {
    let sx = spec_src_coord(x, clip.x as int, clip.width as int, frame.width as int);
    let sy = spec_src_coord(y, clip.y as int, clip.height as int, frame.height as int);
    frame.pixels[sy * frame.width + sx]
}

/// The whole blit: every target pixel inside the clip rectangle becomes the
/// sampled frame pixel blended over it; every pixel outside the scissor is
/// exactly the pre-call pixel.
pub open spec fn spec_composite(target: TexData, clip: Rect, frame: TexData) -> TexData {
    TexData {
        width: target.width,
        height: target.height,
        pixels: Seq::new(
            target.pixels.len(),
            |i: int|
                {
                    let x = i % (target.width as int);
                    let y = i / (target.width as int);
                    if clip.spec_contains(x, y) {
                        spec_blend(spec_sample(frame, clip, x, y), target.pixels[i])
                    } else {
                        target.pixels[i]
                    }
                },
        ),
    }
}

/// Scissor correctness: a composite confined to the clip rectangle leaves
/// every target pixel outside the rectangle bit-identical to its pre-call
/// value.
pub proof fn lemma_scissor_preserves_outside(target: TexData, clip: Rect, frame: TexData, i: int)
    requires
        0 <= i < target.pixels.len(),
        !clip.spec_contains(i % (target.width as int), i / (target.width as int)),
    ensures
        spec_composite(target, clip, frame).pixels[i] == target.pixels[i],
{
}

/// Compositing changes neither the target's size nor its pixel count.
pub proof fn lemma_composite_preserves_shape(target: TexData, clip: Rect, frame: TexData)
    ensures
        spec_composite(target, clip, frame).width == target.width,
        spec_composite(target, clip, frame).height == target.height,
        spec_composite(target, clip, frame).pixels.len() == target.pixels.len(),
{
}

/// Max-accumulation law over a whole draw region: compositing the same
/// frame a second time into the same clip rectangle leaves every pixel's
/// accumulated alpha exactly where the first composite put it, and the
/// accumulated alpha never exceeds the largest representable value.
pub proof fn lemma_composite_twice_alpha_stable(
    target: TexData,
    clip: Rect,
    frame: TexData,
    i: int,
)
    requires
        0 <= i < target.pixels.len(),
    ensures
        spec_composite(spec_composite(target, clip, frame), clip, frame).pixels[i].a
            == spec_composite(target, clip, frame).pixels[i].a,
        spec_composite(target, clip, frame).pixels[i].a >= target.pixels[i].a,
        spec_composite(target, clip, frame).pixels[i].a <= 255,
{
    lemma_composite_preserves_shape(target, clip, frame);
}

/// Perform the blit on the model target: scissored to `clip`, loading the
/// existing contents and blending the scaled frame over them.
pub fn composite_into(target: &mut Texture, clip: Rect, frame: &Texture)
    requires
        old(target)@.wf(),
        frame@.samplable(),
        clip.spec_within(old(target).width, old(target).height),
    ensures
        final(target)@ == spec_composite(old(target)@, clip, frame@),
{
    let ghost spec_result = spec_composite(target@, clip, frame@);
    let w: usize = target.width as usize;
    let n: usize = target.pixels.len();
    let mut out: Vec<Color8> = Vec::new();
    let mut i: usize = 0;
    proof {
        assert(n == old(target)@.width * old(target)@.height);
    }
    while i < n
        invariant
            i <= n,
            n == target@.pixels.len(),
            w == target@.width,
            n == target@.width * target@.height,
            target@ == old(target)@,
            frame@.samplable(),
            clip.spec_within(target@.width, target@.height),
            spec_result == spec_composite(target@, clip, frame@),
            out@.len() == i,
            forall|j: int| 0 <= j < i ==> out@[j] == spec_result.pixels[j],
        decreases n - i,
    {
        proof {
            assert(w > 0) by {
                assert(n == target@.width * target@.height);
                assert(i < n);
                if target@.width == 0 {
                    assert(target@.width * target@.height == 0) by (nonlinear_arith)
                        requires
                            target@.width == 0,
                    ;
                }
            }
        }
        let x: usize = i % w;
        let y: usize = i / w;
        proof {
            assert(y < target@.height) by {
                lemma_multiply_divide_lt(i as int, w as int, target@.height as int);
            }
        }
        let in_clip = (clip.x as u64) <= (x as u64) && (x as u64) < clip.x as u64
            + clip.width as u64 && (clip.y as u64) <= (y as u64) && (y as u64) < clip.y as u64
            + clip.height as u64;
        let px: Color8;
        if in_clip {
            proof {
                lemma_src_coord_bounds(x as int, clip.x as int, clip.width as int,
                    frame@.width as int);
                lemma_src_coord_bounds(y as int, clip.y as int, clip.height as int,
                    frame@.height as int);
                assert((x as u64 - clip.x as u64) * (frame.width as u64) <= u64::MAX)
                    by (nonlinear_arith)
                    requires
                        (x as u64 - clip.x as u64) < 0x1_0000_0000,
                        frame.width < 0x1_0000_0000,
                ;
                assert((y as u64 - clip.y as u64) * (frame.height as u64) <= u64::MAX)
                    by (nonlinear_arith)
                    requires
                        (y as u64 - clip.y as u64) < 0x1_0000_0000,
                        frame.height < 0x1_0000_0000,
                ;
            }
            let sx: u64 = (x as u64 - clip.x as u64) * (frame.width as u64) / (clip.width as u64);
            let sy: u64 = (y as u64 - clip.y as u64) * (frame.height as u64) / (clip.height as u64);
            proof {
                lemma_pixel_index_bounds(sx as int, sy as int, frame@.width as int,
                    frame@.height as int);
                assert((sy as int * (frame@.width as int) + sx as int) < 0x1_0000_0000_0000_0000
                    && sy as int * (frame@.width as int) >= 0) by (nonlinear_arith)
                    requires
                        0 <= sx < 0x1_0000_0000,
                        0 <= sy < 0x1_0000_0000,
                        0 <= frame@.width < 0x1_0000_0000,
                ;
            }
            let idx: u64 = sy * (frame.width as u64) + sx;
            let flen: usize = frame.pixels.len();
            proof {
                assert((idx as int) < frame@.width * frame@.height);
                assert((idx as int) < flen as int);
            }
            let src = frame.pixels[idx as usize];
            px = blend(src, target.pixels[i]);
        } else {
            px = target.pixels[i];
        }
        proof {
            assert(px == spec_result.pixels[i as int]);
        }
        out.push(px);
        i += 1;
    }
    target.pixels = out;
    proof {
        assert(target@ =~= spec_result);
    }
}

} // verus!
