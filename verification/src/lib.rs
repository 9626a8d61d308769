//! Verified orchestration core of a PDF-to-PNG page converter.
//!
//! The library decides everything a conversion run does — how many pages to
//! process, in which order, under which file names, and how the run reacts
//! to each failure — while the unverifiable work (opening the document,
//! rasterising a page, writing a file) is left to a thin driver that reports
//! each outcome back as a [`machine::PageEvent`].

pub mod error;
pub mod laws;
pub mod machine;
pub mod name;

pub use error::ThumbnailError;
