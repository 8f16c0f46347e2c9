//! Protocol codecs, capability registry and connection scheduling for the
//! USB-HID display modules built into Zoom keyboards.
//!
//! Everything in this crate is pure: frames are built and acknowledgements are
//! interpreted here, while the caller owns the device handle and performs the
//! actual reads and writes.
//!
//! - [`tiga`] and [`zoom65v3`] hold the two protocol families: their value
//!   types, their frame layouts, the framing of media uploads and the boards
//!   that speak them.
//! - [`board`], [`features`] and [`detection`] hold the board abstraction:
//!   the descriptor of a board type, its capabilities, and how a present
//!   device is matched to a board.
//! - [`session`] holds a single write/read exchange and runs of them.
//! - [`tray`] holds the connection scheduler: the command queue, the state
//!   machine of the daemon, and the meaning of menu clicks.
//! - [`apply`], [`screen`], [`clock`], [`color`], [`media`], [`config`] and
//!   [`text`] hold what the command line and the daemon need around them.

pub mod apply;
pub mod board;
pub mod bytes;
pub mod clock;
pub mod color;
pub mod config;
pub mod detection;
pub mod features;
pub mod media;
pub mod screen;
pub mod session;
pub mod text;
pub mod tiga;
pub mod tray;
pub mod zoom65v3;
