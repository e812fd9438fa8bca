//! Metadata extraction and catalog building for FLAC audio files.
//!
//! The library works on plain values: file contents arrive as bytes and paths
//! as strings, so every decision between reading a file and handing a track to
//! the presentation layer is stated in a contract and proved.
pub mod encode;
pub mod flac;
pub mod ident;
pub mod paths;
pub mod scan;
pub mod track;
