//! A verified core for embedding a continuously ticking render engine inside
//! a host GUI widget: a one-slot, latest-wins frame handoff channel, a
//! best-effort input channel, the widget's instance state machine, and a
//! model of the blit pipeline that composites a received frame into a clip
//! rectangle of the host's render target with source-over colour blending and
//! max-accumulation alpha.

pub mod adapter;
pub mod channel;
pub mod color;
pub mod event;
pub mod geometry;
pub mod pipeline;
pub mod primitive;
pub mod state;
pub mod target;
