//! A deferred-shading frame orchestrator, with the rules that keep its
//! passes, its swapchain-sized attachments and its uploads in order.
//!
//! The library decides; a backend performs. Every entry point takes plain
//! values and answers with the work to carry out on the GPU, and the backend
//! reports what came of the work that can fail:
//!
//! - `start` asks for a swapchain image, and `acquired` takes the report;
//! - `geometry`, `ambient`, `directional`, `pointlight`, `skybox` and
//!   `light_object` answer with the commands to record, in the one order
//!   that the render pass allows;
//! - `finish` hands the frame over for submission, and `presented` takes the
//!   report;
//! - a swapchain that no longer fits the surface is rebuilt before anything
//!   else is drawn, and `recreate_swapchain` takes the report.
//!
//! Shading parameters travel as 32-bit words (the bit patterns of
//! single-precision numbers) and are never computed with.
//!
//! The module `model` states what each entry point does as a function on
//! plain values, and `laws` proves what holds of every sequence of calls.

pub mod assets;
pub mod command;
pub mod device;
pub mod frame;
pub mod gbuffer;
pub mod geometry;
pub mod laws;
pub mod loader;
pub mod mesh;
pub mod model;
pub mod pipeline;
pub mod player;
pub mod renderer;
pub mod shading;
pub mod skybox;
pub mod stage;
pub mod upload;
