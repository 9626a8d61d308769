use vstd::prelude::*;

use crate::error::ThumbnailError;
use crate::machine::{
    error_of, phase_wf, spec_advance, spec_begin, spec_pages_to_process, PageEvent, Phase,
};

verus! {

/// The phase a run reaches from `p` after the page events `evs`, in order.
pub open spec fn run(p: Phase, evs: Seq<PageEvent>) -> Phase
    decreases evs.len(),
{
    if evs.len() == 0 {
        p
    } else {
        run(spec_advance(p, evs[0]), evs.drop_first())
    }
}

/// Every event in `evs` reports a successfully written page.
pub open spec fn all_written(evs: Seq<PageEvent>) -> bool {
    forall|i: int| 0 <= i < evs.len() ==> evs[i] is Written
}

/// Law: a run from any phase over a concatenation of event sequences is the
/// run over the first followed by the run over the second.
pub proof fn lemma_run_append(p: Phase, a: Seq<PageEvent>, b: Seq<PageEvent>)
    ensures
        run(p, a + b) == run(run(p, a), b),
    decreases a.len(),
{
    if a.len() == 0 {
        assert(a + b =~= b);
    } else {
        assert((a + b)[0] == a[0]);
        assert((a + b).drop_first() =~= a.drop_first() + b);
        lemma_run_append(spec_advance(p, a[0]), a.drop_first(), b);
    }
}

/// Law: a failed run stays failed with the same error, whatever events
/// follow; no later page is ever processed.
pub proof fn lemma_failed_stays(error: ThumbnailError, evs: Seq<PageEvent>)
    ensures
        run(Phase::Failed { error }, evs) == (Phase::Failed { error }),
    decreases evs.len(),
{
    if evs.len() > 0 {
        lemma_failed_stays(error, evs.drop_first());
    }
}

/// Law: a finished run stays finished with the same page count.
pub proof fn lemma_done_stays(pages: usize, evs: Seq<PageEvent>)
    ensures
        run(Phase::Done { pages }, evs) == (Phase::Done { pages }),
    decreases evs.len(),
{
    if evs.len() > 0 {
        lemma_done_stays(pages, evs.drop_first());
    }
}

proof fn lemma_rendering_progress(to_do: usize, next: usize, evs: Seq<PageEvent>)
    requires
        next < to_do,
        next + evs.len() < to_do,
        all_written(evs),
    ensures
        run(Phase::Rendering { to_do, next }, evs) == (Phase::Rendering {
            to_do,
            next: (next + evs.len()) as usize,
        }),
    decreases evs.len(),
{
    if evs.len() > 0 {
        assert(evs[0] is Written);
        assert(all_written(evs.drop_first())) by {
            assert forall|i: int| 0 <= i < evs.drop_first().len() implies evs.drop_first()[i]
                is Written by {
                assert(evs.drop_first()[i] == evs[i + 1]);
            }
        }
        lemma_rendering_progress(to_do, (next + 1) as usize, evs.drop_first());
    }
}

proof fn lemma_rendering_all_written(to_do: usize, next: usize, evs: Seq<PageEvent>)
    requires
        next < to_do,
        next + evs.len() == to_do,
        all_written(evs),
    ensures
        run(Phase::Rendering { to_do, next }, evs) == (Phase::Done { pages: to_do }),
{
    let front = evs.drop_last();
    let last = evs.last();
    assert(evs =~= front + seq![last]);
    assert(last is Written);
    assert(all_written(front)) by {
        assert forall|i: int| 0 <= i < front.len() implies front[i] is Written by {
            assert(front[i] == evs[i]);
        }
    }
    lemma_rendering_progress(to_do, next, front);
    lemma_run_append(Phase::Rendering { to_do, next }, front, seq![last]);
    assert(seq![last].drop_first() =~= Seq::<PageEvent>::empty());
    let m = (next + front.len()) as usize;
    let at_last = Phase::Rendering { to_do, next: m };
    assert(seq![last][0] == last);
    assert(run(at_last, seq![last]) == run(spec_advance(at_last, last), seq![last].drop_first()));
    assert(run(spec_advance(at_last, last), seq![last].drop_first()) == spec_advance(
        at_last,
        last,
    ));
}

/// Law: after the document opened with `total_pages` pages and `j` pages
/// were written, with at least one page still outstanding, the run stands
/// exactly at page `j`: pages are processed strictly in ascending order
/// starting at zero, each exactly once.
pub proof fn lemma_pages_in_order(total_pages: usize, max_pages: Option<usize>, evs: Seq<
    PageEvent,
>)
    requires
        evs.len() < spec_pages_to_process(total_pages, max_pages),
        all_written(evs),
    ensures
        run(spec_begin(Some(total_pages), max_pages), evs) == (Phase::Rendering {
            to_do: spec_pages_to_process(total_pages, max_pages),
            next: evs.len() as usize,
        }),
{
    let n = spec_pages_to_process(total_pages, max_pages);
    lemma_rendering_progress(n, 0, evs);
}

/// Law: a run that opens a document with `total_pages` pages and sees every
/// selected page succeed ends in `Done` with exactly
/// `spec_pages_to_process(total_pages, max_pages)` pages written — all of
/// them when no cap is given, the capped count otherwise.
pub proof fn lemma_successful_run(total_pages: usize, max_pages: Option<usize>, evs: Seq<
    PageEvent,
>)
    requires
        evs.len() == spec_pages_to_process(total_pages, max_pages),
        all_written(evs),
    ensures
        run(spec_begin(Some(total_pages), max_pages), evs) == (Phase::Done {
            pages: spec_pages_to_process(total_pages, max_pages),
        }),
{
    let n = spec_pages_to_process(total_pages, max_pages);
    if n > 0 {
        lemma_rendering_all_written(n, 0, evs);
    }
}

/// Law: if page `j` fails after pages `0 .. j` were written, the run ends
/// `Failed` with the error of that failure — not with a partial count — and
/// whatever events follow change nothing: the run aborts on its first
/// failure.
pub proof fn lemma_fail_fast(
    total_pages: usize,
    max_pages: Option<usize>,
    j: usize,
    bad: PageEvent,
    rest: Seq<PageEvent>,
)
    requires
        j < spec_pages_to_process(total_pages, max_pages),
        !(bad is Written),
    ensures
        run(
            spec_begin(Some(total_pages), max_pages),
            Seq::new(j as nat, |i: int| PageEvent::Written).push(bad) + rest,
        ) == (Phase::Failed { error: error_of(bad) }),
{
    let n = spec_pages_to_process(total_pages, max_pages);
    let p0 = spec_begin(Some(total_pages), max_pages);
    let pre = Seq::new(j as nat, |i: int| PageEvent::Written);
    let tail = seq![bad] + rest;
    assert(pre.push(bad) + rest =~= pre + tail);
    lemma_run_append(p0, pre, tail);
    lemma_pages_in_order(total_pages, max_pages, pre);
    let at_j = Phase::Rendering { to_do: n, next: j };
    assert(tail[0] == bad);
    assert(tail.drop_first() =~= rest);
    assert(spec_advance(at_j, bad) == (Phase::Failed { error: error_of(bad) }));
    lemma_failed_stays(error_of(bad), rest);
}

/// Law: when the document cannot be opened, the run fails with the
/// document-open error whatever happens afterwards, and no page is ever
/// processed, so no file is written.
pub proof fn lemma_open_failure(max_pages: Option<usize>, evs: Seq<PageEvent>)
    ensures
        run(spec_begin(None, max_pages), evs) == (Phase::Failed {
            error: ThumbnailError::GlibError,
        }),
{
    lemma_failed_stays(ThumbnailError::GlibError, evs);
}

/// Law: the page cap is a cap, never an error. No cap processes the whole
/// document; a cap at or above the page count behaves exactly like no cap;
/// a cap below it processes exactly the cap; an explicit cap of zero
/// processes zero pages.
pub proof fn lemma_cap_semantics(total_pages: usize, cap: usize)
    ensures
        spec_pages_to_process(total_pages, None) == total_pages,
        cap >= total_pages ==> spec_pages_to_process(total_pages, Some(cap))
            == spec_pages_to_process(total_pages, None),
        cap < total_pages ==> spec_pages_to_process(total_pages, Some(cap)) == cap,
        spec_pages_to_process(total_pages, Some(0)) == 0,
{
}

/// Law: stepping the machine preserves well-formedness, so a driver that
/// starts at `begin` and steps with `advance` can never leave the
/// well-formed phases.
pub proof fn lemma_advance_preserves_wf(p: Phase, ev: PageEvent)
    requires
        phase_wf(p),
    ensures
        phase_wf(spec_advance(p, ev)),
{
}

} // verus!
