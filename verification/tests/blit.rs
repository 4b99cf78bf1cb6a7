//! Behaviour of the blit: exact blend arithmetic, max-accumulation alpha,
//! scissor correctness, scaling, and the cached pipeline configuration.

use frame_bridge::color::{blend, blend_channel, Color8};
use frame_bridge::geometry::{Rect, Size2};
use frame_bridge::pipeline::{
    AddressMode, BlendFactor, BlendOperation, FilterMode, LoadOp, Pipeline, TextureFormat,
};
use frame_bridge::primitive::FramePrimitive;
use frame_bridge::target::{composite_into, Texture};

fn rgba(r: u8, g: u8, b: u8, a: u8) -> Color8 {
    Color8 { r, g, b, a }
}

#[test]
fn blend_channel_exact_value() {
    // (200 * 51 + 100 * 204) / 255 = (10200 + 20400) / 255 = 120
    assert_eq!(blend_channel(200, 51, 100), 120);
}

#[test]
fn blend_exact_values() {
    let src = rgba(255, 0, 0, 128);
    let dst = rgba(0, 0, 255, 255);
    let out = blend(src, dst);
    assert_eq!(out.r, 128); // (255*128 + 0*127) / 255
    assert_eq!(out.g, 0);
    assert_eq!(out.b, 127); // (0*128 + 255*127) / 255
    assert_eq!(out.a, 255); // max(128, 255)
}

#[test]
fn alpha_half_composited_twice_never_exceeds_max() {
    let src = rgba(10, 10, 10, 128);
    let once = blend(src, rgba(0, 0, 0, 0));
    let twice = blend(src, once);
    assert_eq!(once.a, 128);
    assert_eq!(twice.a, 128);
    assert!(twice.a <= 255);

    let opaque = rgba(10, 10, 10, 255);
    let o1 = blend(opaque, rgba(0, 0, 0, 200));
    let o2 = blend(opaque, o1);
    assert_eq!(o1.a, 255);
    assert_eq!(o2.a, 255);
}

#[test]
fn pipeline_config_is_the_blit_configuration() {
    let p = Pipeline::new(TextureFormat { id: 1 }, Size2 { width: 800, height: 600 });
    assert_eq!(p.blend.color.src_factor, BlendFactor::SrcAlpha);
    assert_eq!(p.blend.color.dst_factor, BlendFactor::OneMinusSrcAlpha);
    assert_eq!(p.blend.color.operation, BlendOperation::Add);
    assert_eq!(p.blend.alpha.src_factor, BlendFactor::One);
    assert_eq!(p.blend.alpha.dst_factor, BlendFactor::One);
    assert_eq!(p.blend.alpha.operation, BlendOperation::Max);
    assert_eq!(p.sampler.address_mode, AddressMode::ClampToEdge);
    assert_eq!(p.sampler.mag_filter, FilterMode::Linear);
    assert_eq!(p.sampler.min_filter, FilterMode::Linear);
    assert_eq!(p.load_op, LoadOp::Load);
    assert_eq!(p.draw.vertices, 3);
    assert_eq!(p.draw.instances, 1);
    assert_eq!(p.format, TextureFormat { id: 1 });
    assert_eq!(p.target_size, Size2 { width: 800, height: 600 });
}

#[test]
fn prepare_builds_pipeline_once_and_keeps_it() {
    let prim = FramePrimitive { frame: None };
    let mut cache: Option<Pipeline> = None;
    prim.prepare(&mut cache, TextureFormat { id: 4 }, Size2 { width: 640, height: 480 });
    let first = cache.clone().unwrap();
    prim.prepare(&mut cache, TextureFormat { id: 9 }, Size2 { width: 10, height: 10 });
    let second = cache.clone().unwrap();
    assert_eq!(first, second);
    assert_eq!(second.format, TextureFormat { id: 4 });
}

#[test]
fn clip_bounds_check_matches_target_extent() {
    let r = Rect { x: 2, y: 3, width: 4, height: 5 };
    assert!(r.within(6, 8));
    assert!(!r.within(5, 8));
    assert!(!r.within(6, 7));
    // an extent past 32 bits must not wrap around
    let big = Rect { x: u32::MAX, y: 0, width: u32::MAX, height: 1 };
    assert!(!big.within(u32::MAX, 1));
}

fn target_4x4() -> Texture {
    let mut pixels = Vec::new();
    for i in 0..16u32 {
        pixels.push(rgba(i as u8, 0, 0, 10));
    }
    Texture { width: 4, height: 4, pixels }
}

#[test]
fn scissor_leaves_outside_pixels_bit_identical() {
    let mut target = target_4x4();
    let before = target.pixels.clone();
    let frame = Texture::filled(2, 2, rgba(0, 255, 0, 255));
    let clip = Rect { x: 1, y: 1, width: 2, height: 2 };
    composite_into(&mut target, clip, &frame);
    for y in 0..4usize {
        for x in 0..4usize {
            let i = y * 4 + x;
            let inside = (1..3).contains(&x) && (1..3).contains(&y);
            if inside {
                // opaque green over anything is green, alpha accumulates to max
                assert_eq!(target.pixels[i], rgba(0, 255, 0, 255));
            } else {
                assert_eq!(target.pixels[i], before[i]);
            }
        }
    }
}

#[test]
fn one_pixel_frame_scales_to_fill_clip() {
    let mut target = Texture::filled(2, 2, rgba(0, 0, 0, 0));
    let frame = Texture::filled(1, 1, rgba(200, 50, 25, 255));
    let clip = Rect { x: 0, y: 0, width: 2, height: 2 };
    composite_into(&mut target, clip, &frame);
    for i in 0..4 {
        assert_eq!(target.pixels[i], rgba(200, 50, 25, 255));
    }
}

#[test]
fn compositing_same_region_twice_keeps_alpha_capped() {
    let mut target = Texture::filled(2, 2, rgba(0, 0, 0, 0));
    let frame = Texture::filled(1, 1, rgba(100, 100, 100, 128));
    let clip = Rect { x: 0, y: 0, width: 2, height: 2 };
    composite_into(&mut target, clip, &frame);
    let after_once: Vec<u8> = target.pixels.iter().map(|p| p.a).collect();
    composite_into(&mut target, clip, &frame);
    for (i, p) in target.pixels.iter().enumerate() {
        assert_eq!(p.a, after_once[i]);
        assert_eq!(p.a, 128);
        assert!(p.a <= 255);
    }
}

#[test]
fn render_without_frame_is_a_no_op() {
    let prim = FramePrimitive { frame: None };
    let cache = Some(Pipeline::new(TextureFormat { id: 0 }, Size2 { width: 4, height: 4 }));
    let mut target = target_4x4();
    let before = target.pixels.clone();
    let clip = Rect { x: 0, y: 0, width: 4, height: 4 };
    let draws = prim.render(&cache, &mut target, clip);
    assert_eq!(draws, 0);
    assert_eq!(target.pixels, before);
}

#[test]
fn render_with_frame_issues_one_draw() {
    let prim = FramePrimitive { frame: Some(Texture::filled(2, 2, rgba(9, 9, 9, 255))) };
    let cache = Some(Pipeline::new(TextureFormat { id: 0 }, Size2 { width: 4, height: 4 }));
    let mut target = target_4x4();
    let clip = Rect { x: 0, y: 0, width: 4, height: 4 };
    let draws = prim.render(&cache, &mut target, clip);
    assert_eq!(draws, 1);
    assert_eq!(target.pixels[0], rgba(9, 9, 9, 255));
}
