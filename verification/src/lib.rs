//! A verified resource- and frame-lifecycle layer for an explicit graphics
//! API.
//!
//! The library models the decisions that drive a renderer — memory-type
//! selection, queue-family selection, uniform-buffer padding, the staged
//! upload protocol, swapchain image tracking and the N-buffered frame
//! synchronization ring — over plain values, and proves their contracts.
//! The raw driver calls themselves live outside the library and feed it
//! plain values (flag words, indices, byte buffers).

pub mod buffer;
pub mod cmd;
pub mod descriptor;
pub mod frame_sync;
pub mod memory;
pub mod physical_device;
pub mod pipeline;
pub mod queue_family;
pub mod render_pass;
pub mod scene;
pub mod swapchain;
pub mod utils;
pub mod vertex;

use vstd::prelude::*;

verus! {

} // verus!
