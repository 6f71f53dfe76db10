//! A window that shows a single static colored quad: two triangles drawn
//! through a fixed pipeline over a surface cleared to white on every frame.
//!
//! The library holds the decisions of that program — which surface format is
//! negotiated, how the surface configuration reacts to a resize, what the
//! fixed pipeline and the frame's render pass look like, and what the event
//! loop does on each event — each with a proved contract. The surrounding
//! program performs the GPU and window calls the decisions ask for.

pub mod config;
pub mod mesh;
pub mod pipeline;
pub mod pass;
pub mod control;
