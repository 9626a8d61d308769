use vstd::prelude::*;

use crate::error::ThumbnailError;
use crate::name::{filename_spec, output_filename};

verus! {

/// The outcome of processing a single page, as reported back by the driver
/// that performs the rendering and file I/O.
#[derive(Clone, Copy, Debug, PartialEq, Eq, Structural)]
pub enum PageEvent {
    /// The page was fetched, rendered, and written out as a PNG file.
    Written,
    /// The document had no page at the requested index, although the index
    /// lies below the reported page count.
    Missing,
    /// The raster surface or its drawing context could not be created.
    Graphics,
    /// Encoding the raster surface as PNG failed.
    Encode,
    /// Creating or writing the output file failed.
    Io,
}

/// Where a conversion run stands. A run moves from `Rendering` through
/// strictly ascending page indices to `Done`, or to `Failed` on the first
/// failure; `Done` and `Failed` are final.
#[derive(Clone, Copy, Debug, PartialEq, Eq, Structural)]
pub enum Phase {
    /// Pages `0 .. next` have been written; pages `next .. to_do` remain.
    Rendering { to_do: usize, next: usize },
    /// Every selected page was written; `pages` of them in all.
    Done { pages: usize },
    /// The run aborted on its first failure.
    Failed { error: ThumbnailError },
}

/// What the driver must do next. Each phase calls for exactly one action.
#[derive(Clone, Debug, PartialEq, Eq)]
pub enum Action {
    /// Process page `page_id`: fetch it, allocate an opaque RGB raster
    /// surface scaled to the page size, fill it with solid white (so that
    /// transparent regions come out white, not black), render the page
    /// content over it, and write the surface to the file `filename` as PNG.
    RenderPage { page_id: usize, filename: String },
    /// Report success: `pages` pages were written.
    Finish { pages: usize },
    /// Report failure: the run aborted with `error`.
    Abort { error: ThumbnailError },
}

/// The number of pages a run processes: every page of the document when no
/// cap is given, otherwise the smaller of the cap and the page count.
pub open spec fn spec_pages_to_process(total_pages: usize, max_pages: Option<usize>) -> usize {
    match max_pages {
        None => total_pages,
        Some(cap) => if cap < total_pages {
            cap
        } else {
            total_pages
        },
    }
}

/// Resolve how many pages to process from the document's page count and an
/// optional cap. A cap of zero selects zero pages; a cap at or above the
/// page count is the same as no cap, never an error.
pub fn pages_to_process(total_pages: usize, max_pages: Option<usize>) -> (n: usize)
    ensures
        n == spec_pages_to_process(total_pages, max_pages),
        n <= total_pages,
{
    match max_pages {
        None => total_pages,
        Some(cap) => if cap < total_pages {
            cap
        } else {
            total_pages
        },
    }
}

/// The page cap as the command line means it: zero or negative stands for
/// "no cap", a positive value caps the run.
pub open spec fn spec_cap_from_cli(raw: i32) -> Option<usize> {
    if raw <= 0 {
        None
    } else {
        Some(raw as usize)
    }
}

/// Map the command line's page-cap argument to the conversion routine's:
/// zero or negative means "process every page", a positive value is a cap.
pub fn cap_from_cli(raw: i32) -> (r: Option<usize>)
    ensures
        r == spec_cap_from_cli(raw),
{
    if raw <= 0 {
        None
    } else {
        Some(raw as usize)
    }
}

/// Well-formedness of a phase: while pages remain, the cursor lies strictly
/// inside the selected range. `begin` establishes this and `advance`
/// preserves it.
pub open spec fn phase_wf(p: Phase) -> bool {
    match p {
        Phase::Rendering { to_do, next } => next < to_do,
        Phase::Done { pages: _ } => true,
        Phase::Failed { error: _ } => true,
    }
}

/// The phase a run starts in, given the outcome of opening the document.
pub open spec fn spec_begin(opened: Option<usize>, max_pages: Option<usize>) -> Phase {
    match opened {
        None => Phase::Failed { error: ThumbnailError::GlibError },
        Some(total_pages) => {
            let n = spec_pages_to_process(total_pages, max_pages);
            if n == 0 {
                Phase::Done { pages: 0 }
            } else {
                Phase::Rendering { to_do: n, next: 0 }
            }
        },
    }
}

/// Start a conversion run. `opened` is the outcome of opening the document:
/// its total page count, or `None` when the open failed. An open failure is
/// fatal; otherwise the run starts at page zero, or is already complete when
/// zero pages are selected.
pub fn begin(opened: Option<usize>, max_pages: Option<usize>) -> (p: Phase)
    ensures
        p == spec_begin(opened, max_pages),
        phase_wf(p),
{
    match opened {
        None => Phase::Failed { error: ThumbnailError::GlibError },
        Some(total_pages) => {
            let n = pages_to_process(total_pages, max_pages);
            if n == 0 {
                Phase::Done { pages: 0 }
            } else {
                Phase::Rendering { to_do: n, next: 0 }
            }
        },
    }
}

/// The error a failing page event aborts the run with. `Written` does not
/// abort and is never mapped through this.
pub open spec fn error_of(ev: PageEvent) -> ThumbnailError {
    match ev {
        PageEvent::Written => ThumbnailError::IoError,
        PageEvent::Missing => ThumbnailError::NoPagesError,
        PageEvent::Graphics => ThumbnailError::CairoError,
        PageEvent::Encode => ThumbnailError::CairoIoError,
        PageEvent::Io => ThumbnailError::IoError,
    }
}

/// The phase after one page event: a written page moves the cursor up or
/// completes the run, any failure ends it at once, and a finished or failed
/// run never changes again.
pub open spec fn spec_advance(p: Phase, ev: PageEvent) -> Phase {
    match p {
        Phase::Rendering { to_do, next } => match ev {
            PageEvent::Written => if next + 1 < to_do {
                Phase::Rendering { to_do, next: (next + 1) as usize }
            } else {
                Phase::Done { pages: to_do }
            },
            _ => Phase::Failed { error: error_of(ev) },
        },
        _ => p,
    }
}

/// Step the run by one page event.
pub fn advance(p: Phase, ev: PageEvent) -> (q: Phase)
    requires
        phase_wf(p),
    ensures
        q == spec_advance(p, ev),
        phase_wf(q),
{
    match p {
        Phase::Rendering { to_do, next } => match ev {
            PageEvent::Written => if next + 1 < to_do {
                Phase::Rendering { to_do, next: next + 1 }
            } else {
                Phase::Done { pages: to_do }
            },
            PageEvent::Missing => Phase::Failed { error: ThumbnailError::NoPagesError },
            PageEvent::Graphics => Phase::Failed { error: ThumbnailError::CairoError },
            PageEvent::Encode => Phase::Failed { error: ThumbnailError::CairoIoError },
            PageEvent::Io => Phase::Failed { error: ThumbnailError::IoError },
        },
        _ => p,
    }
}

/// Whether a phase is well-formed. A driver outside the verified library can
/// call this before `advance` to check its precondition at run time.
pub fn phase_is_wf(p: &Phase) -> (b: bool)
    ensures
        b == phase_wf(*p),
{
    match p {
        Phase::Rendering { to_do, next } => *next < *to_do,
        Phase::Done { pages: _ } => true,
        Phase::Failed { error: _ } => true,
    }
}

/// The action the current phase calls for: while rendering, process the page
/// under the cursor into the file named after it; when done or failed,
/// report the outcome. A failed or finished run never asks for another page.
pub fn current_action(p: &Phase, out_path: &str) -> (a: Action)
    ensures
        match *p {
            Phase::Rendering { to_do, next } => a matches Action::RenderPage { page_id, filename }
                && page_id == next
                && filename@ == filename_spec(out_path@, next as nat),
            Phase::Done { pages } => a == (Action::Finish { pages }),
            Phase::Failed { error } => a == (Action::Abort { error }),
        },
{
    match p {
        Phase::Rendering { to_do: _, next } => Action::RenderPage {
            page_id: *next,
            filename: output_filename(out_path, *next),
        },
        Phase::Done { pages } => Action::Finish { pages: *pages },
        Phase::Failed { error } => Action::Abort { error: *error },
    }
}

} // verus!
