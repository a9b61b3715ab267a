//! Core of a desktop utility that lets a user pick one visible top-level
//! window and force its geometry to a preset resolution.
//!
//! The surrounding user interface and the operating-system calls live
//! outside this crate; everything here works on plain values and is
//! verified: the resolution catalog, the deduplicating snapshot builder,
//! the selection tracker, the refresh gate and the resize planner.

pub mod catalog;
pub mod control;
pub mod resize;
pub mod schedule;
pub mod selection;
pub mod window;
