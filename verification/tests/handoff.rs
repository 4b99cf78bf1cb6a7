//! Behaviour of the two channel crossings: latest-wins frame handoff and
//! ordered best-effort input delivery, including asymmetric shutdown.

use frame_bridge::channel::{FrameChannel, InputChannel};

#[test]
fn publish_then_single_receive() {
    let mut ch: FrameChannel<u32> = FrameChannel::new();
    ch.send_frame(7);
    assert_eq!(ch.try_receive_frame(), Some(7));
}

#[test]
fn second_receive_same_cycle_is_empty() {
    let mut ch: FrameChannel<u32> = FrameChannel::new();
    ch.send_frame(7);
    assert_eq!(ch.try_receive_frame(), Some(7));
    assert_eq!(ch.try_receive_frame(), None);
}

#[test]
fn two_publishes_latest_wins() {
    let mut ch: FrameChannel<u32> = FrameChannel::new();
    ch.send_frame(1);
    ch.send_frame(2);
    assert_eq!(ch.try_receive_frame(), Some(2));
    assert_eq!(ch.try_receive_frame(), None);
}

#[test]
fn empty_channel_receive_is_none() {
    let mut ch: FrameChannel<u32> = FrameChannel::new();
    assert_eq!(ch.try_receive_frame(), None);
}

#[test]
fn dead_producer_behaves_like_empty_channel() {
    let mut ch: FrameChannel<u32> = FrameChannel::new();
    ch.send_frame(9);
    ch.drop_producer();
    assert_eq!(ch.try_receive_frame(), None);
    assert_eq!(ch.try_receive_frame(), None);
}

#[test]
fn send_after_consumer_drop_is_silently_dropped() {
    let mut ch: FrameChannel<u32> = FrameChannel::new();
    ch.drop_consumer();
    ch.send_frame(3);
    assert!(ch.slot.is_none());
}

#[test]
fn input_channel_preserves_order() {
    let mut ch: InputChannel<u32> = InputChannel::new();
    ch.send(10);
    ch.send(20);
    ch.send(30);
    assert_eq!(ch.try_receive(), Some(10));
    assert_eq!(ch.try_receive(), Some(20));
    assert_eq!(ch.try_receive(), Some(30));
    assert_eq!(ch.try_receive(), None);
}

#[test]
fn input_send_after_consumer_gone_is_dropped() {
    let mut ch: InputChannel<u32> = InputChannel::new();
    ch.send(1);
    ch.drop_consumer();
    ch.send(2);
    assert_eq!(ch.queue.len(), 1);
}
