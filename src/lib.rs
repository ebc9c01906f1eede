//! Collapses multi-line clipboard text into a single line.
//!
//! `normalize` states and computes the line-break rewrite, `clipboard` names
//! the capability through which the shared buffer is read and written, and
//! `handler` holds the change-detection cycle that ties them together.
pub mod clipboard;
pub mod handler;
pub mod normalize;
