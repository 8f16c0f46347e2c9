//! Protocol of the Zoom65 V3 screen module: 33-byte reports that the
//! keyboard acknowledges with two status bytes, driving a 110x110 screen.

pub mod abi;
pub mod board;
pub mod checksum;
pub mod float;
pub mod types;
pub mod upload;

use vstd::prelude::*;

verus! {

/// Screen width in pixels
pub const SCREEN_WIDTH: u32 = 110;

/// Screen height in pixels
pub const SCREEN_HEIGHT: u32 = 110;

} // verus!
