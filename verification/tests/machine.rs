use pdf2pngs::machine::{
    advance, begin, cap_from_cli, current_action, pages_to_process, phase_is_wf, Action,
    PageEvent, Phase,
};
use pdf2pngs::ThumbnailError;

#[test]
fn page_count_uncapped() {
    assert_eq!(pages_to_process(5, None), 5);
    assert_eq!(pages_to_process(0, None), 0);
}

#[test]
fn page_count_cap_below_total() {
    assert_eq!(pages_to_process(5, Some(3)), 3);
}

#[test]
fn page_count_cap_at_or_above_total_is_unlimited() {
    assert_eq!(pages_to_process(5, Some(5)), 5);
    assert_eq!(pages_to_process(5, Some(9)), pages_to_process(5, None));
}

#[test]
fn page_count_cap_zero_means_zero_pages() {
    assert_eq!(pages_to_process(5, Some(0)), 0);
}

#[test]
fn cli_cap_zero_or_negative_means_unlimited() {
    assert_eq!(cap_from_cli(0), None);
    assert_eq!(cap_from_cli(-3), None);
    assert_eq!(cap_from_cli(1), Some(1));
    assert_eq!(cap_from_cli(7), Some(7));
}

#[test]
fn open_failure_is_fatal() {
    let p = begin(None, None);
    assert_eq!(
        p,
        Phase::Failed {
            error: ThumbnailError::GlibError
        }
    );
    assert_eq!(
        current_action(&p, "out"),
        Action::Abort {
            error: ThumbnailError::GlibError
        }
    );
}

#[test]
fn empty_document_finishes_at_once() {
    let p = begin(Some(0), None);
    assert_eq!(p, Phase::Done { pages: 0 });
    assert_eq!(current_action(&p, "out"), Action::Finish { pages: 0 });
}

#[test]
fn explicit_zero_cap_writes_nothing() {
    let p = begin(Some(3), Some(0));
    assert_eq!(p, Phase::Done { pages: 0 });
    assert_eq!(current_action(&p, "out"), Action::Finish { pages: 0 });
}

#[test]
fn full_document_processes_every_page_in_order() {
    let mut p = begin(Some(3), None);
    for i in 0..3usize {
        assert!(phase_is_wf(&p));
        assert_eq!(
            current_action(&p, "out"),
            Action::RenderPage {
                page_id: i,
                filename: format!("out_{}.png", i),
            }
        );
        p = advance(p, PageEvent::Written);
    }
    assert_eq!(p, Phase::Done { pages: 3 });
    assert_eq!(current_action(&p, "out"), Action::Finish { pages: 3 });
}

#[test]
fn capped_run_stops_at_cap() {
    let mut p = begin(Some(5), Some(2));
    assert_eq!(p, Phase::Rendering { to_do: 2, next: 0 });
    p = advance(p, PageEvent::Written);
    assert_eq!(p, Phase::Rendering { to_do: 2, next: 1 });
    p = advance(p, PageEvent::Written);
    assert_eq!(p, Phase::Done { pages: 2 });
}

#[test]
fn failure_mid_run_aborts_and_stays_failed() {
    let mut p = begin(Some(3), None);
    p = advance(p, PageEvent::Written);
    assert_eq!(p, Phase::Rendering { to_do: 3, next: 1 });
    p = advance(p, PageEvent::Io);
    assert_eq!(
        p,
        Phase::Failed {
            error: ThumbnailError::IoError
        }
    );
    assert_eq!(
        current_action(&p, "out"),
        Action::Abort {
            error: ThumbnailError::IoError
        }
    );
    // Further events change nothing: the run aborted on its first failure.
    p = advance(p, PageEvent::Written);
    assert_eq!(
        p,
        Phase::Failed {
            error: ThumbnailError::IoError
        }
    );
}

#[test]
fn missing_page_is_a_no_pages_error() {
    let p = advance(begin(Some(2), None), PageEvent::Missing);
    assert_eq!(
        p,
        Phase::Failed {
            error: ThumbnailError::NoPagesError
        }
    );
}

#[test]
fn surface_failure_is_a_cairo_error() {
    let p = advance(begin(Some(2), None), PageEvent::Graphics);
    assert_eq!(
        p,
        Phase::Failed {
            error: ThumbnailError::CairoError
        }
    );
}

#[test]
fn encode_failure_is_a_cairo_io_error() {
    let p = advance(begin(Some(2), None), PageEvent::Encode);
    assert_eq!(
        p,
        Phase::Failed {
            error: ThumbnailError::CairoIoError
        }
    );
}

#[test]
fn finished_run_ignores_further_events() {
    let p = advance(begin(Some(1), None), PageEvent::Written);
    assert_eq!(p, Phase::Done { pages: 1 });
    let q = advance(p, PageEvent::Io);
    assert_eq!(q, Phase::Done { pages: 1 });
}

#[test]
fn well_formedness_check_matches_phases() {
    assert!(phase_is_wf(&Phase::Rendering { to_do: 2, next: 1 }));
    assert!(!phase_is_wf(&Phase::Rendering { to_do: 2, next: 2 }));
    assert!(phase_is_wf(&Phase::Done { pages: 0 }));
    assert!(phase_is_wf(&Phase::Failed {
        error: ThumbnailError::IoError
    }));
}
