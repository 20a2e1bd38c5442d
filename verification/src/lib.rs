//! A verified model of a single-window GPU presentation engine.
//!
//! The library captures the decision logic of a frame loop: device and queue
//! selection, swapchain creation and generation-tagged recreation, per-image
//! framebuffer bookkeeping, frame synchronization through completion futures,
//! and the controller that sequences acquire, record, submit, present and
//! retire. The driver and window system themselves stand outside the library:
//! a host runs the loop by performing each action the controller asks for
//! against the real driver and feeding the outcome back as a driver event.

pub mod commands;
pub mod controller;
pub mod device;
pub mod events;
pub mod framebuffer;
pub mod resources;
pub mod surface;
pub mod swapchain;
pub mod sync;
