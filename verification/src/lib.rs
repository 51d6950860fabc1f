//! Frame presentation engine: the swapchain lifecycle and the per-frame
//! scheduling of a real-time presentation loop, with one frame in flight.
//!
//! The engine is a state machine that a windowing back end drives. It decides
//! what happens next -- reclaim, rebuild, acquire, encode, submit -- and how
//! the outcome of each is taken; the back end talks to the window system and
//! to the GPU. Every function here is verified against its contract.
//!
//! - `geometry`: extents and the viewport derived from them.
//! - `surface`: what a surface supports and what is asked of it at startup.
//! - `swapchain`: the chain of presentable images and its render targets.
//! - `token`: the completion token of the most recent submission.
//! - `scheduler`: the per-tick state machine and what holds of each step.
//! - `runs`: what holds of every sequence of steps.

pub mod geometry;
pub mod runs;
pub mod scheduler;
pub mod surface;
pub mod swapchain;
pub mod token;
