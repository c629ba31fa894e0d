use snips_core::labels::WindowLabel;
use snips_core::watchdog::{
    extract_method, method_to_window, should_enable_watchdog, WatchdogState,
};

#[test]
fn test_method_to_window_mapping() {
    assert_eq!(
        method_to_window("ShowQuickAdd"),
        Some(WindowLabel::QuickCapture)
    );
    assert_eq!(method_to_window("ShowSearch"), Some(WindowLabel::Search));
    assert_eq!(method_to_window("ToggleSearch"), Some(WindowLabel::Search));
    assert_eq!(
        method_to_window("ShowManagement"),
        Some(WindowLabel::Management)
    );
    assert_eq!(method_to_window("ReloadTheme"), Some(WindowLabel::Settings));
    assert_eq!(method_to_window("SomethingElse"), None);
}

#[test]
fn test_extract_method_from_monitor_line() {
    let line = "method call time=1.0 sender=:1.2 -> destination=io.utensils.snips \
                serial=3 path=/io/utensils/snips; interface=io.utensils.snips; member=ShowQuickAdd";
    assert_eq!(extract_method(line), Some("ShowQuickAdd".to_string()));
}

#[test]
fn test_extract_method_trims_quotes_and_semicolons() {
    let line = "method call member=\"ToggleSearch\";";
    assert_eq!(extract_method(line), Some("ToggleSearch".to_string()));
}

#[test]
fn test_extract_method_ignores_other_lines() {
    assert_eq!(extract_method("signal time=1.0 member=ShowQuickAdd"), None);
    assert_eq!(extract_method("method call with no member token"), None);
    assert_eq!(extract_method(""), None);
}

#[test]
fn test_should_enable_watchdog() {
    assert!(should_enable_watchdog(false, true));
    assert!(!should_enable_watchdog(true, true));
    assert!(!should_enable_watchdog(false, false));
}

#[test]
fn outcome_within_deadline_counts_success() {
    // An external trigger at t=0 answered successfully at t=150ms lands
    // within the 200ms deadline.
    let mut wd = WatchdogState::new(true);
    wd.observe_external_method("ShowQuickAdd", 0);
    assert_eq!(wd.last_method, Some("ShowQuickAdd".to_string()));
    assert_eq!(wd.last_window, Some("quick-add".to_string()));

    wd.record_focus_outcome("quick-add", true, 150);
    let snap = wd.diagnostics_snapshot();
    assert_eq!(snap.last_within_deadline, Some(true));
    assert_eq!(snap.last_latency_ms, Some(150));
    assert_eq!(snap.success_count, 1);
    assert_eq!(snap.deadline_miss_count, 0);
    assert_eq!(snap.pending_count, 0);
}

#[test]
fn outcome_past_deadline_counts_miss() {
    // The same trigger answered at t=250ms misses the deadline even though
    // the focus succeeded.
    let mut wd = WatchdogState::new(true);
    wd.observe_external_method("ShowQuickAdd", 0);
    wd.record_focus_outcome("quick-add", true, 250);
    let snap = wd.diagnostics_snapshot();
    assert_eq!(snap.last_within_deadline, Some(false));
    assert_eq!(snap.last_latency_ms, Some(250));
    assert_eq!(snap.success_count, 0);
    assert_eq!(snap.deadline_miss_count, 1);
}

#[test]
fn fast_failure_still_misses_deadline() {
    // Within 200ms but unsuccessful: not within the deadline.
    let mut wd = WatchdogState::new(true);
    wd.observe_external_method("ShowSearch", 0);
    wd.record_focus_outcome("search", false, 50);
    let snap = wd.diagnostics_snapshot();
    assert_eq!(snap.last_within_deadline, Some(false));
    assert_eq!(snap.deadline_miss_count, 1);
}

#[test]
fn outcome_without_pending_entry_is_noop() {
    let mut wd = WatchdogState::new(true);
    let before = wd.diagnostics_snapshot();
    wd.record_focus_outcome("search", true, 100);
    wd.record_focus_outcome("not-a-window", true, 100);
    let after = wd.diagnostics_snapshot();
    assert_eq!(before.success_count, after.success_count);
    assert_eq!(before.deadline_miss_count, after.deadline_miss_count);
    assert_eq!(before.latency_samples, after.latency_samples);
    assert_eq!(before.last_latency_ms, after.last_latency_ms);
    assert_eq!(before.pending_count, after.pending_count);
}

#[test]
fn disabled_watchdog_ignores_outcomes_and_reports_disabled_shape() {
    let mut wd = WatchdogState::new(false);
    wd.record_note("inactive".to_string());
    wd.observe_external_method("ShowQuickAdd", 0);
    wd.record_focus_outcome("quick-add", true, 50);
    let snap = wd.diagnostics_snapshot();
    assert!(!snap.enabled);
    assert_eq!(snap.success_count, 0);
    assert_eq!(snap.deadline_miss_count, 0);
    assert_eq!(snap.pending_count, 0);
    assert_eq!(snap.latency_samples, 0);
    assert_eq!(snap.notes, vec!["inactive".to_string()]);
}

#[test]
fn average_latency_absent_exactly_when_buffer_empty() {
    let mut wd = WatchdogState::new(true);
    let snap = wd.diagnostics_snapshot();
    assert_eq!(snap.latency_samples, 0);

    // Three samples: 100, 150, 200 -> mean 150.
    for (start, end) in [(0, 100), (1000, 1150), (2000, 2200)] {
        wd.observe_external_method("ShowQuickAdd", start);
        wd.record_focus_outcome("quick-add", true, end);
    }
    let snap = wd.diagnostics_snapshot();
    assert_eq!(snap.latency_samples, 3);
    assert_eq!(snap.latency_sum, 450);
    let mean = snap.latency_sum as f64 / snap.latency_samples as f64;
    assert_eq!(mean, 150.0);
}

#[test]
fn latency_ring_buffer_keeps_last_fifty_samples() {
    let mut wd = WatchdogState::new(true);
    for k in 0..55i64 {
        wd.observe_external_method("ShowQuickAdd", 1000 * k);
        wd.record_focus_outcome("quick-add", true, 1000 * k + k);
    }
    let snap = wd.diagnostics_snapshot();
    assert_eq!(snap.latency_samples, 50);
    // Samples 0..=4 were evicted; the sum is over latencies 5..=54.
    assert_eq!(snap.latency_sum, (5..55).sum::<i64>() as u128);
}

#[test]
fn notes_keep_only_the_newest_ten() {
    let mut wd = WatchdogState::new(true);
    for k in 0..12 {
        wd.record_note(format!("note {}", k));
    }
    let snap = wd.diagnostics_snapshot();
    assert_eq!(snap.notes.len(), 10);
    assert_eq!(snap.notes[0], "note 2");
    assert_eq!(snap.notes[9], "note 11");
}

#[test]
fn snapshot_formats_last_invocation_timestamp() {
    let mut wd = WatchdogState::new(true);
    wd.observe_external_method("ShowSearch", 1_000);
    let snap = wd.diagnostics_snapshot();
    assert_eq!(
        snap.last_invoked_at.as_deref(),
        Some("1970-01-01T00:00:01Z")
    );
}

#[test]
fn pending_entry_is_overwritten_by_newer_trigger() {
    let mut wd = WatchdogState::new(true);
    wd.observe_external_method("ShowQuickAdd", 0);
    wd.observe_external_method("ShowQuickAdd", 400);
    wd.record_focus_outcome("quick-add", true, 500);
    let snap = wd.diagnostics_snapshot();
    assert_eq!(snap.last_latency_ms, Some(100));
    assert_eq!(snap.success_count, 1);
}

#[test]
fn monitor_exit_is_recorded() {
    let mut wd = WatchdogState::new(true);
    wd.set_monitor_running(true);
    assert!(wd.diagnostics_snapshot().monitor_running);
    wd.set_monitor_running(false);
    wd.set_last_error(Some("monitor exited with status: 1".to_string()));
    let snap = wd.diagnostics_snapshot();
    assert!(!snap.monitor_running);
    assert_eq!(
        snap.last_error,
        Some("monitor exited with status: 1".to_string())
    );
}
