//! Verified core of a compositor-synchronized render loop.
//!
//! The library models the render-loop controller of a single-window,
//! continuously redrawn GPU application as an explicit state machine:
//! window-system events go in, and the exact sequence of surface and
//! rendering commands that must be performed comes out. The unverified
//! shell around the library owns the windowing connection and the GPU
//! handles, feeds each protocol event to the controller, and performs
//! the returned commands in order.

use vstd::prelude::*;

pub mod bridge;
pub mod controller;
pub mod laws;
pub mod params;
pub mod surface;

verus! {

/// Width and height substituted when a configure event carries no
/// explicit size.
pub const DEFAULT_SIZE: u32 = 256;

} // verus!
