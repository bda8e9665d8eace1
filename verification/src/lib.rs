//! Transport and encoding core for electrophoretic display panels.
//!
//! A panel is driven over a synchronous serial bus and four discrete lines:
//! chip-select, data/command select, reset and busy-sense. This crate holds
//! the part of a driver that decides: which line is driven when, which bytes
//! are written, how long a busy panel is waited for, and how pixel rectangles
//! and packed pixel bytes are turned into what a controller expects. It does
//! no input or output itself.
//!
//! - [`framer`] turns a command, a payload or a reset into the bus actions
//!   that make it up and hands them out one at a time; the caller performs
//!   each on its hardware and says how it went. [`frames`] reads such
//!   actions back as the frames that the panel sees.
//! - [`wait`] decides how long a busy panel is polled.
//! - [`window`] computes the RAM window and cursor registers, [`bits`] the
//!   two-bits-per-pixel expansion.
//! - [`script`] is the list of requests that one operation of a panel
//!   driver amounts to; the panel modules build these lists, and
//!   [`runner`] walks one from action to action and stops it at the first
//!   failure.
pub mod bits;
pub mod color;
pub mod epd1in54_v2;
pub mod epd1in54b;
pub mod epd5in83b_v2;
pub mod epd7in5_v3;
pub mod error;
pub mod framer;
pub mod frames;
pub mod runner;
pub mod script;
pub mod traits;
pub mod wait;
pub mod window;
