//! A find-and-replace utility driven by regular expressions, as a library:
//! everything the utility decides or computes, with the reading and writing
//! left to the caller.
//!
//! - [`size`] reads byte sizes such as `1MiB`.
//! - [`engine`] substitutes with the `regex` crate and escapes patterns.
//! - [`scan_buffer`] is a window of fixed length over a stream of bytes.
//! - [`cli`] runs the utility step by step: each step takes what came of the
//!   last action and gives the next one. [`transition`] says what each step
//!   is, and [`file_mode`] what the steps over a list of files add up to.
//! - [`error`] and [`logger`] hold the error type and the debug switch.

pub mod cli;
pub mod engine;
pub mod error;
pub mod file_mode;
pub mod logger;
pub mod scan_buffer;
pub mod size;
pub mod transition;
