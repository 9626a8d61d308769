use vstd::prelude::*;

verus! {

/// Why a conversion run failed. One variant per failure source; an error is
/// always fatal for the whole run, there is no retry and no per-page recovery.
/// The driver that performs the actual library calls keeps the underlying
/// error payload for reporting; the library tracks only which source failed.
#[derive(Clone, Copy, Debug, PartialEq, Eq, Structural)]
pub enum ThumbnailError {
    /// The document could not be opened (missing, unreadable, corrupted, or
    /// password-protected).
    GlibError,
    /// The document reported a page count, but a page at an index inside that
    /// count could not be fetched.
    NoPagesError,
    /// The raster surface or its drawing context could not be created, for
    /// instance because the pixel dimensions were invalid.
    CairoError,
    /// Encoding the raster surface as PNG failed.
    CairoIoError,
    /// Creating or writing an output file failed.
    IoError,
}

} // verus!
