//! Manifest-driven batch file renaming.
//!
//! A manifest file lists rename pairs, one per line, in the form
//! `transformed=original`. The library parses manifest lines, interprets
//! command-line arguments, and turns a manifest into a plan of rename
//! operations to carry out in the target directory, either forward
//! (transformed name to original name) or in reverse.

pub mod config;
pub mod fs_model;
pub mod manifest;
