//! Bootstrap of a Vulkan context bound to a native window.
//!
//! The crate holds the decisions of the bootstrap: which physical device is
//! chosen, in which order the API objects are created, what is released when
//! a step fails, and when the render loop stops. The calls into the Vulkan
//! loader and the windowing system are made by the program that drives the
//! library; it reports their outcomes as plain values.

pub mod ash_api;
pub mod ash_handler;
pub mod descriptor;
pub mod device;
pub mod diagnostics;
pub mod error;
pub mod flags;
pub mod glfw_handler;
pub mod selector;
