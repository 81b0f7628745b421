//! Frame-synchronization and swapchain-lifecycle core for a double/triple
//! buffered render loop.
//!
//! The library holds the decision logic of the renderer as plain, verified
//! values: how a swapchain configuration is chosen from surface capabilities,
//! how frame slots rotate through the acquire / submit / present protocol,
//! how the images-in-flight table couples frame fences to swapchain images,
//! and in which order the dependent resources are torn down. The surrounding
//! application performs the graphics-API calls and feeds their outcomes back
//! in as events.

pub mod device;
pub mod memory;
pub mod registry;
pub mod scheduler;
pub mod swapchain;

use vstd::prelude::*;

verus! {

/// Number of frame slots the render loop rotates through.
pub const MAX_FRAMES_IN_FLIGHT: usize = 2;

} // verus!
