use calendario_app::app_state::{
    calendar_state, default_agenda_view, default_auto_sync_minutes, default_true, file_logging_enabled,
    hide_on_close, is_ready, millis_as_i64, now_ms, watchdog_log_line, workerw_log_line, LocalStoreStatus,
};
use calendario_app::model::EventWriteExtensions;
use calendario_app::text::{decimal_string, parse_unsigned, signed_decimal_string, trim};

#[test]
fn calendar_state_for_the_ui() {
    let s = calendar_state(true, true, true, Some(3));
    assert_eq!((s.source.as_str(), s.connected, s.db_ready, s.client_id_configured, s.pending_mutations_count), ("google", true, true, true, 3));
    let s = calendar_state(false, false, false, Some(3));
    assert_eq!((s.source.as_str(), s.pending_mutations_count), ("demo", 0));
    let s = calendar_state(false, true, true, None);
    assert_eq!(s.pending_mutations_count, 0);
}

#[test]
fn local_store_readiness() {
    let mut st = LocalStoreStatus::new();
    assert!(!is_ready(&st));
    st.mark_ready();
    assert!(is_ready(&st));
}

#[test]
fn defaults_and_switches() {
    assert_eq!(default_auto_sync_minutes(), 0);
    assert_eq!(default_agenda_view(), "month");
    assert!(default_true());
    assert!(hide_on_close(Some(true)));
    assert!(!hide_on_close(None));
    assert!(file_logging_enabled(&None));
    assert!(!file_logging_enabled(&Some("0".to_string())));
    let e = EventWriteExtensions::default();
    assert_eq!(e.recurrence, "none");
    assert_eq!(e.reminder_minutes, Some(30));
    assert!(e.use_default_reminders && e.guests_can_invite_others && e.guests_can_see_other_guests);
    assert!(!e.request_google_meet && !e.guests_can_modify);
    assert_eq!((e.transparency.as_str(), e.visibility.as_str()), ("opaque", "default"));
}

#[test]
fn clock_in_milliseconds() {
    assert_eq!(millis_as_i64(None), 0);
    assert_eq!(millis_as_i64(Some(1_700_000_000_000)), 1_700_000_000_000);
    assert_eq!(millis_as_i64(Some((1u128 << 64) + 5)), 5);
    assert!(now_ms() > 1_600_000_000_000);
}

#[test]
fn log_lines() {
    assert_eq!(workerw_log_line("2026-01-01 10:00:00.000", "x"), "2026-01-01 10:00:00.000 [agenda] workerw_file x\n");
    assert_eq!(watchdog_log_line("t", "spawn attempt=1/5"), "t [agenda] watchdog spawn attempt=1/5\n");
}

#[test]
fn text_helpers() {
    assert_eq!(trim("\u{3000} a b\u{2028}\t"), "a b");
    assert_eq!(trim("\u{200B}x"), "\u{200B}x");
    assert_eq!(decimal_string(0), "0");
    assert_eq!(decimal_string(40320), "40320");
    assert_eq!(signed_decimal_string(-9223372036854775808), "-9223372036854775808");
    assert_eq!(parse_unsigned("+12", 100), Some(12));
    assert_eq!(parse_unsigned("+", 100), None);
    assert_eq!(parse_unsigned("", 100), None);
    assert_eq!(parse_unsigned("101", 100), None);
    assert_eq!(parse_unsigned("18446744073709551615", u64::MAX), Some(u64::MAX));
    assert_eq!(parse_unsigned("18446744073709551616", u64::MAX), None);
}

#[test]
fn store_is_ready_once_some_init_succeeded() {
    let mut st = LocalStoreStatus::new();
    st.on_init_result(false);
    assert!(!is_ready(&st));
    st.on_init_result(true);
    assert!(is_ready(&st));
    st.on_init_result(false);
    assert!(is_ready(&st));
}
