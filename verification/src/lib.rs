//! A verified model of a single-threaded GPU frame renderer: swapchain
//! lifecycle, an elastic per-frame resource pool, command recording against an
//! append-only model registry, and the byte-level readers for the asset
//! formats that feed the renderer.
//!
//! The device, surface and queue objects themselves live outside this crate;
//! the renderer here decides, for each tick, what the driver must do (which
//! commands to record, when to rebuild the swapchain, which frame slot to
//! use) and proves the bookkeeping that those decisions rely on.

pub mod assets;
pub mod bootstrap;
pub mod container;
pub mod file;
pub mod lr2;
pub mod md2;
pub mod render;
pub mod scene;
pub mod swapchain;
pub mod wrl;
