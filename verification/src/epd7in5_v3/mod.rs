//! The 7.5" (V3) panel.
pub mod command;
