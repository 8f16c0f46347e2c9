//! Shared protocol of the keyboards built around the Tiga screen module
//! (Zoom TKL Dyna, Zoom75 Tiga): 32-byte frames protected by a
//! CRC-16/CCITT-FALSE, driving a 320x172 RGB565 screen.

pub mod abi;
pub mod commands;
pub mod crc;
pub mod dyna;
pub mod types;
pub mod upload;
pub mod zoom75;

use vstd::prelude::*;

verus! {

/// Screen width in pixels
pub const SCREEN_WIDTH: u32 = 320;

/// Screen height in pixels
pub const SCREEN_HEIGHT: u32 = 172;

} // verus!
