//! Verified core of an mdBook preprocessor that renders typst snippets to SVG.
//!
//! The library decides which parts of a chapter are typst code, where the
//! files that typst asks for live, how the rendered SVG is put back into the
//! chapter, and how packages are fetched and vetted.  Running typst itself,
//! reading and writing files and spawning programs is left to the caller.

pub mod config;
pub mod download;
pub mod license;
pub mod linker;
pub mod markdown;
pub mod package;
pub mod paths;
pub mod text;
pub mod world;
