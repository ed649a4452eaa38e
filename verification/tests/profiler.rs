use shift::opengl::{
    check_buffer_index, check_update, validate_dimensions, vertex_count, vertices_count, BufferType,
    RendererError,
};
use shift::presenter::{Draw, FramePresenter, PendingSessions, Scene, Source};
use shift::profiler::{record, record_duration, report_if_due, span, Profiler, Report, Stat, REPORT_INTERVAL};

const ZERO: Stat = Stat { last: None, interval_sum: 0, interval_deltas: 0, duration_sum: 0, duration_count: 0, triggers: 0 };

#[test]
fn record_counts_triggers_and_intervals() {
    let mut p = Profiler::new(0);
    assert_eq!(p.stat("flip"), ZERO);
    record(&mut p, "flip", 100);
    assert_eq!(p.stat("flip"), Stat { last: Some(100), triggers: 1, ..ZERO });
    record(&mut p, "flip", 160);
    record(&mut p, "flip", 150);
    assert_eq!(
        p.stat("flip"),
        Stat { last: Some(150), triggers: 3, interval_sum: 60, interval_deltas: 2, ..ZERO }
    );
    assert_eq!(p.stat("other"), ZERO);
}

#[test]
fn record_duration_sums_and_saturates() {
    let mut p = Profiler::new(0);
    record_duration(&mut p, "draw", 7);
    record_duration(&mut p, "draw", 8);
    assert_eq!(p.stat("draw"), Stat { triggers: 2, duration_sum: 15, duration_count: 2, ..ZERO });
    record_duration(&mut p, "draw", u64::MAX);
    assert_eq!(p.stat("draw").duration_sum, u64::MAX);
    assert_eq!(p.stat("draw").duration_count, 3);
}

#[test]
fn span_records_its_duration() {
    let mut p = Profiler::new(0);
    let guard = span("send", 40);
    assert_eq!(guard.event, "send");
    guard.finish(&mut p, 65);
    assert_eq!(p.stat("send"), Stat { triggers: 1, duration_sum: 25, duration_count: 1, ..ZERO });
    span("send", 70).finish(&mut p, 60);
    assert_eq!(p.stat("send").duration_sum, 25);
    assert_eq!(p.stat("send").duration_count, 2);
}

#[test]
fn report_is_due_after_a_second() {
    let mut p = Profiler::new(1_000);
    record(&mut p, "flip", 2_000);
    record_duration(&mut p, "draw", 9);
    assert_eq!(report_if_due(&mut p, 1_000 + REPORT_INTERVAL - 1), None);
    assert_eq!(p.stat("flip").triggers, 1);
    let now = 1_000 + REPORT_INTERVAL;
    let lines = report_if_due(&mut p, now).unwrap();
    assert_eq!(
        lines,
        vec![
            Report { event: "flip".to_string(), stat: Stat { last: Some(2_000), triggers: 1, ..ZERO }, elapsed: REPORT_INTERVAL },
            Report { event: "draw".to_string(), stat: Stat { triggers: 1, duration_sum: 9, duration_count: 1, ..ZERO }, elapsed: REPORT_INTERVAL },
        ]
    );
    // The counts start over; the time of the last recording stays.
    assert_eq!(p.stat("flip"), Stat { last: Some(2_000), ..ZERO });
    assert_eq!(p.stat("draw"), ZERO);
    assert_eq!(report_if_due(&mut p, now + 5), None);
    // Events that were not recorded since are left out.
    record(&mut p, "flip", now + 10);
    let lines = report_if_due(&mut p, now + REPORT_INTERVAL).unwrap();
    assert_eq!(lines.len(), 1);
    assert_eq!(lines[0].stat, Stat { last: Some(now + 10), triggers: 1, interval_sum: now + 10 - 2_000, interval_deltas: 1, ..ZERO });
    assert_eq!(report_if_due(&mut p, now + 2 * REPORT_INTERVAL), Some(vec![]));
}

fn scene<'a>(active: Option<&'a str>, previous: Option<&'a str>, a: bool, p: bool, t: bool) -> Scene<'a> {
    Scene { active_session_id: active, previous_session_id: previous, has_active_texture: a, has_previous_texture: p, in_transition: t }
}

#[test]
fn presenter_blends_only_during_a_transition() {
    let presenter = FramePresenter::new();
    assert_eq!(
        presenter.plan(&scene(Some("new"), Some("old"), true, true, true)),
        (Draw::Blend, vec!["old".to_string(), "new".to_string()])
    );
    assert_eq!(
        presenter.plan(&scene(Some("same"), Some("same"), true, true, true)),
        (Draw::Blend, vec!["same".to_string()])
    );
    assert_eq!(
        presenter.plan(&scene(Some("new"), Some("old"), true, true, false)),
        (Draw::Single(Source::Active), vec!["new".to_string()])
    );
    assert_eq!(
        presenter.plan(&scene(Some("new"), Some("old"), false, true, true)),
        (Draw::Single(Source::Previous), vec!["old".to_string()])
    );
    assert_eq!(
        presenter.plan(&scene(Some("new"), None, true, true, true)),
        (Draw::Single(Source::Active), vec!["new".to_string()])
    );
    assert_eq!(presenter.plan(&scene(Some("new"), Some("old"), false, false, true)), (Draw::Clear, vec![]));
    assert_eq!(presenter.plan(&scene(None, None, true, true, false)), (Draw::Clear, vec![]));
}

#[test]
fn pending_sessions_are_taken_once() {
    let mut pending = PendingSessions::new();
    assert!(pending.take_pending_sessions().is_empty());
    pending.set_pending_sessions(vec!["a".to_string(), "b".to_string()]);
    assert_eq!(pending.take_pending_sessions(), vec!["a".to_string(), "b".to_string()]);
    assert!(pending.take_pending_sessions().is_empty());
}

#[test]
fn buffer_dimensions() {
    assert_eq!(validate_dimensions(8, 2), Ok(()));
    assert_eq!(validate_dimensions(0, 3), Ok(()));
    assert_eq!(validate_dimensions(7, 2), Err(RendererError::InvalidDimensions { len: 7, dimensions: 2 }));
    assert_eq!(validate_dimensions(4, 0), Err(RendererError::InvalidDimensions { len: 4, dimensions: 0 }));
    assert_eq!(vertex_count(8, 2), 4);
    assert_eq!(vertex_count(8, 0), 0);
    assert_eq!(vertices_count(&vec![]), 0);
    assert_eq!(vertices_count(&vec![4, 9, 2]), 9);
    assert_eq!(check_buffer_index(1, 2), Ok(()));
    assert_eq!(check_buffer_index(2, 2), Err(RendererError::InvalidBufferIndex(2)));
    assert_eq!(BufferType::Float.element_name(), "f32");
    assert_eq!(BufferType::Int.element_name(), "i32");
    assert_eq!(check_update(BufferType::Float, BufferType::Float, 8, 2), Ok(()));
    assert_eq!(
        check_update(BufferType::Float, BufferType::Int, 8, 2),
        Err(RendererError::TypeMismatch { expected: BufferType::Float, actual: BufferType::Int })
    );
    assert_eq!(
        check_update(BufferType::Int, BufferType::Int, 3, 2),
        Err(RendererError::InvalidDimensions { len: 3, dimensions: 2 })
    );
}
