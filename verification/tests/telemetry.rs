use koe_core::telemetry::{level_to_ffi, log_entry, Level, LevelFilter, SessionMetrics, Timestamp};

fn at_ms(ms: u128) -> Option<Timestamp> {
    Some(Timestamp { nanos: ms * 1_000_000 })
}

#[test]
fn fresh_metrics_know_no_times() {
    let metrics = SessionMetrics::new("abc");
    assert_eq!(metrics.session_id, "abc");
    assert_eq!(metrics.recording_duration_ms(), None);
    assert_eq!(metrics.asr_connect_duration_ms(), None);
    assert_eq!(metrics.asr_finalize_duration_ms(), None);
    assert_eq!(metrics.llm_duration_ms(), None);
    assert_eq!(
        metrics.summary(),
        "session=abc recording=?ms asr_connect=?ms asr_finalize=?ms llm=?ms pasted=false error=None"
    );
}

#[test]
fn summaries_show_times_and_quoted_errors() {
    let mut metrics = SessionMetrics::new("s-1");
    metrics.hotkey_start = at_ms(1000);
    metrics.hotkey_end = at_ms(3500);
    metrics.asr_connect_start = at_ms(1001);
    metrics.asr_connected = at_ms(1250);
    metrics.asr_final_received = at_ms(4000);
    metrics.llm_start = at_ms(4000);
    metrics.llm_end = at_ms(5234);
    metrics.auto_pasted = true;
    metrics.error_type = Some("bad \"quote\"\n\u{8a9e}".to_string());
    assert_eq!(metrics.recording_duration_ms(), Some(2500));
    assert_eq!(metrics.asr_connect_duration_ms(), Some(249));
    assert_eq!(metrics.asr_finalize_duration_ms(), Some(500));
    assert_eq!(metrics.llm_duration_ms(), Some(1234));
    assert_eq!(
        metrics.summary(),
        format!(
            "session=s-1 recording=2500ms asr_connect=249ms asr_finalize=500ms llm=1234ms pasted=true error={:?}",
            metrics.error_type
        )
    );
    assert!(metrics.summary().ends_with("error=Some(\"bad \\\"quote\\\"\\n\u{8a9e}\")"));
}

#[test]
fn durations_need_both_ends() {
    assert_eq!(SessionMetrics::duration_ms(at_ms(1), None), None);
    assert_eq!(SessionMetrics::duration_ms(None, at_ms(1)), None);
    assert_eq!(SessionMetrics::duration_ms(None, None), None);
    assert_eq!(SessionMetrics::duration_ms(at_ms(1), at_ms(1)), Some(0));
}

#[test]
fn durations_are_whole_milliseconds_and_never_negative() {
    let start = Some(Timestamp { nanos: 10 });
    let end = Some(Timestamp { nanos: 1_000_009 });
    assert_eq!(SessionMetrics::duration_ms(start, end), Some(0));
    let end = Some(Timestamp { nanos: 1_000_010 });
    assert_eq!(SessionMetrics::duration_ms(start, end), Some(1));
    assert_eq!(SessionMetrics::duration_ms(end, start), Some(0));
}

#[test]
fn durations_keep_the_lower_bits() {
    let ms = (1u128 << 64) + 5;
    assert_eq!(SessionMetrics::duration_ms(at_ms(0), at_ms(ms)), Some(5));
}

#[test]
fn consecutive_durations_add_up() {
    let times = [0u128, 1_700_000, 2_900_000].map(|nanos| Some(Timestamp { nanos }));
    let first = SessionMetrics::duration_ms(times[0], times[1]).unwrap();
    let second = SessionMetrics::duration_ms(times[1], times[2]).unwrap();
    let whole = SessionMetrics::duration_ms(times[0], times[2]).unwrap();
    assert_eq!((first, second, whole), (1, 1, 2));
}

#[test]
fn levels_have_numbers() {
    assert_eq!(level_to_ffi(Level::Error), 0);
    assert_eq!(level_to_ffi(Level::Warn), 1);
    assert_eq!(level_to_ffi(Level::Info), 2);
    assert_eq!(level_to_ffi(Level::Debug), 3);
    assert_eq!(level_to_ffi(Level::Trace), 3);
}

#[test]
fn levels_agree_with_the_log_crate() {
    let levels = [
        (Level::Error, log::Level::Error),
        (Level::Warn, log::Level::Warn),
        (Level::Info, log::Level::Info),
        (Level::Debug, log::Level::Debug),
        (Level::Trace, log::Level::Trace),
    ];
    let filters = [
        (LevelFilter::Off, log::LevelFilter::Off),
        (LevelFilter::Error, log::LevelFilter::Error),
        (LevelFilter::Warn, log::LevelFilter::Warn),
        (LevelFilter::Info, log::LevelFilter::Info),
        (LevelFilter::Debug, log::LevelFilter::Debug),
        (LevelFilter::Trace, log::LevelFilter::Trace),
    ];
    for (own, other) in levels {
        assert_eq!(own.name(), other.to_string());
        for (own_filter, other_filter) in filters {
            assert_eq!(own_filter.enabled(own), other <= other_filter);
        }
    }
}

#[test]
fn log_lines_are_formatted() {
    let entry = log_entry(LevelFilter::Info, 1700000000123, Level::Warn, "disk full \t").unwrap();
    assert_eq!(entry.line, "[1700000000123] [WARN] disk full \t\n");
    assert_eq!(entry.event_level, 1);
    assert_eq!(entry.event_text, "[1700000000123] [WARN] disk full");
    assert!(log_entry(LevelFilter::Info, 0, Level::Debug, "x").is_none());
    assert_eq!(log_entry(LevelFilter::Trace, 0, Level::Trace, "").unwrap().line, "[0] [TRACE] \n");
}
