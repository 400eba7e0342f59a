//! Native backend core of a desktop PDF-viewing shell.
//!
//! The library holds the logic that the shell's commands rest on: scanning
//! process arguments for PDF paths, the write-once startup path list, and the
//! interpretation of filesystem and process-launch outcomes. All I/O (reading
//! argv, touching the disk, spawning the file manager, running the GUI event
//! loop) stays outside, in the thin program around this crate; the functions
//! here work on plain values and are verified.

pub mod bootstrap;
pub mod commands;
pub mod scan;
pub mod startup;
