//! Frame lifecycle and swapchain recreation for a double-buffered renderer.
//!
//! The crate holds the decisions of a render loop as verified state
//! machines and plans over plain values. The shell that owns the window and
//! the device performs each [`frame::Action`] and reports what happened as
//! a [`frame::Event`].
//!
//! - [`surface`]: selection of format, presentation mode, extent and image
//!   count of a swapchain.
//! - [`sync`]: fences of the frame slots and the image bindings.
//! - [`generation`]: the live swapchain generation.
//! - [`recreate`]: the swapchain recreation controller.
//! - [`frame`]: the frame driver.
//! - [`laws`]: what holds over whole runs of the frame driver.
//! - [`resources`]: the order in which resources are built and destroyed.
//! - [`commands`]: the commands recorded for each image.
//! - [`factory`]: descriptions of the resources that depend on a
//!   generation.
//! - [`shader`]: shader bytecode and its alignment.
//! - [`device`]: choice of the physical device and its queue families.

pub mod surface;
pub mod sync;
pub mod generation;
pub mod recreate;
pub mod frame;
pub mod laws;
pub mod shader;
pub mod resources;
pub mod commands;
pub mod factory;
pub mod device;
