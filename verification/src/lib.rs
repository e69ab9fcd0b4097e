//! A per-window rendering core: swapchain lifecycle, frame pacing through
//! completion tokens, resize and recreation handling, and the coordinator
//! policy that routes window-system events to renderers.
//!
//! The core is deliberately free of device calls. Every decision the engine
//! makes — which present mode to use, how many images a swapchain holds, when
//! a frame is skipped, when a stale swapchain is rebuilt, what the per-frame
//! draw parameters are — is an ordinary function over plain values, and each
//! carries a proved contract. A host harness owns the actual device, surface
//! and window objects; it feeds their reports (surface capabilities, acquire
//! and present results, pointer positions) into these functions and performs
//! the actions they return.

pub mod adapter;
pub mod coordinator;
pub mod extent;
pub mod frame;
pub mod geometry;
pub mod laws;
pub mod present;
pub mod renderer;
pub mod swapchain;
