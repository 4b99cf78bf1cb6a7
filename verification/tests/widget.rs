//! Behaviour of the widget adapter and instance state machine: lazy
//! initialization, per-redraw engine ticks, event capture across the whole
//! input taxonomy, and the draw cycle's frame receipt.

use frame_bridge::adapter::{draw, mouse_interaction, update};
use frame_bridge::color::Color8;
use frame_bridge::event::{CursorKind, EventStatus, InputEvent, InputKind};
use frame_bridge::state::InstanceState;
use frame_bridge::target::Texture;

fn ev(kind: InputKind) -> InputEvent {
    InputEvent { kind, payload: 0 }
}

fn green_frame() -> Texture {
    Texture::filled(2, 2, Color8 { r: 0, g: 255, b: 0, a: 255 })
}

#[test]
fn all_taxonomy_events_are_captured() {
    for kind in [
        InputKind::Pointer,
        InputKind::Keyboard,
        InputKind::Touch,
        InputKind::RedrawRequested,
    ] {
        let mut state = InstanceState::new();
        let outcome = update(&mut state, ev(kind));
        assert_eq!(outcome.status, EventStatus::Captured);
    }
}

#[test]
fn redraw_ticks_engine_once_and_requests_next_frame() {
    let mut state = InstanceState::new();
    let outcome = update(&mut state, ev(InputKind::RedrawRequested));
    assert!(outcome.redraw_requested);
    match &state {
        InstanceState::Running { engine, .. } => assert_eq!(engine.ticks, 1),
        _ => panic!("expected a running instance"),
    }
    let outcome = update(&mut state, ev(InputKind::RedrawRequested));
    assert!(outcome.redraw_requested);
    match &state {
        InstanceState::Running { engine, .. } => assert_eq!(engine.ticks, 2),
        _ => panic!("expected a running instance"),
    }
}

#[test]
fn pointer_events_do_not_request_redraw() {
    let mut state = InstanceState::new();
    let outcome = update(&mut state, ev(InputKind::Pointer));
    assert!(!outcome.redraw_requested);
}

#[test]
fn input_events_are_forwarded_in_order() {
    let mut state = InstanceState::new();
    update(&mut state, InputEvent { kind: InputKind::Pointer, payload: 1 });
    update(&mut state, InputEvent { kind: InputKind::Keyboard, payload: 2 });
    update(&mut state, InputEvent { kind: InputKind::Touch, payload: 3 });
    match &state {
        InstanceState::Running { input, .. } => {
            assert_eq!(input.queue.len(), 3);
            assert_eq!(input.queue[0].payload, 1);
            assert_eq!(input.queue[1].payload, 2);
            assert_eq!(input.queue[2].payload, 3);
        },
        _ => panic!("expected a running instance"),
    }
}

#[test]
fn redraws_without_published_frames_draw_nothing() {
    let mut state = InstanceState::new();
    for _ in 0..5 {
        update(&mut state, ev(InputKind::RedrawRequested));
    }
    let prim = draw(&mut state);
    assert!(prim.frame.is_none());
}

#[test]
fn published_frame_reaches_exactly_one_draw() {
    let mut state = InstanceState::new();
    state.ensure_initialized();
    state.publish_frame(green_frame());
    let first = draw(&mut state);
    assert!(first.frame.is_some());
    let second = draw(&mut state);
    assert!(second.frame.is_none());
}

#[test]
fn second_publish_overwrites_undrawn_frame() {
    let mut state = InstanceState::new();
    state.ensure_initialized();
    state.publish_frame(Texture::filled(1, 1, Color8 { r: 1, g: 0, b: 0, a: 255 }));
    state.publish_frame(Texture::filled(1, 1, Color8 { r: 2, g: 0, b: 0, a: 255 }));
    let prim = draw(&mut state);
    let frame = prim.frame.expect("latest frame should be pending");
    assert_eq!(frame.pixels[0].r, 2);
    assert!(draw(&mut state).frame.is_none());
}

#[test]
fn engine_loop_consumes_inputs_in_order() {
    let mut state = InstanceState::new();
    update(&mut state, InputEvent { kind: InputKind::Pointer, payload: 7 });
    update(&mut state, InputEvent { kind: InputKind::Touch, payload: 8 });
    assert_eq!(state.next_input().map(|e| e.payload), Some(7));
    assert_eq!(state.next_input().map(|e| e.payload), Some(8));
    assert_eq!(state.next_input(), None);
}

#[test]
fn tick_before_initialization_is_a_no_op() {
    let mut state = InstanceState::new();
    state.tick();
    assert!(matches!(state, InstanceState::Uninitialized));
}

#[test]
fn ensure_initialized_is_idempotent() {
    let mut state = InstanceState::new();
    state.ensure_initialized();
    state.ensure_initialized();
    match &state {
        InstanceState::Running { engine, input, frames } => {
            assert_eq!(engine.ticks, 0);
            assert!(input.queue.is_empty());
            assert!(frames.slot.is_none());
        },
        _ => panic!("expected a running instance"),
    }
}

#[test]
fn failed_engine_construction_degrades_to_blank() {
    let mut state = InstanceState::new();
    state.fail_initialization();
    assert!(matches!(state, InstanceState::Failed));
    // publishing and ticking stay no-ops, updates stay captured
    state.publish_frame(green_frame());
    state.tick();
    let outcome = update(&mut state, ev(InputKind::RedrawRequested));
    assert_eq!(outcome.status, EventStatus::Captured);
    let prim = draw(&mut state);
    assert!(prim.frame.is_none());
    assert!(matches!(state, InstanceState::Failed));
}

#[test]
fn mouse_interaction_reports_pointer() {
    assert_eq!(mouse_interaction(), CursorKind::Pointer);
}
