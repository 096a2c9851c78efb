//! The commands of the tool.

pub mod diff;
