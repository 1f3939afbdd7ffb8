use windusb_core::cleanup::CleanupAction;
use windusb_core::cleanup::CleanupGuard;
use windusb_core::cleanup::cleanup_target;
use windusb_core::estimate::extract_fraction;
use windusb_core::estimate::split_fraction;
use windusb_core::estimate::sync_fraction;
use windusb_core::events::EventStream;
use windusb_core::events::ProgressEvent;
use windusb_core::pipeline::Controller;
use windusb_core::pipeline::Phase;

#[test]
fn extract_fraction_exact_values() {
    assert_eq!(extract_fraction(0), 500);
    assert_eq!(extract_fraction(250_000_000), 1500);
    assert_eq!(extract_fraction(500_000_000), 2500);
    assert_eq!(extract_fraction(u64::MAX), 2500);
    assert_eq!(extract_fraction(1_000_000), 504);
}

#[test]
fn split_fraction_exact_values() {
    assert_eq!(split_fraction(0, 100), 2500);
    assert_eq!(split_fraction(50, 100), 5250);
    assert_eq!(split_fraction(100, 100), 8000);
    assert_eq!(split_fraction(200, 100), 8000);
    assert_eq!(split_fraction(1_700_000_000, 3_400_000_000), 5250);
}

#[test]
fn sync_fraction_exact_values() {
    assert_eq!(sync_fraction(200, 200), 8000);
    assert_eq!(sync_fraction(100, 200), 8950);
    assert_eq!(sync_fraction(0, 200), 9900);
    assert_eq!(sync_fraction(400, 200), 8000);
}

#[test]
fn event_stream_suppresses_regressing_fractions() {
    let mut s = EventStream::new();
    assert!(s.update("a".to_string(), 100));
    assert!(!s.update("b".to_string(), 50));
    assert!(s.update("c".to_string(), 100));
    assert!(s.update("d".to_string(), 900));
    assert_eq!(s.len(), 3);
    assert_eq!(s.last_emitted_fraction(), 900);
}

#[test]
fn event_stream_has_one_terminal_and_drops_later_updates() {
    let mut s = EventStream::new();
    assert!(s.update("a".to_string(), 100));
    s.finish();
    assert!(s.is_terminated());
    assert!(!s.update("late".to_string(), 9000));
    assert_eq!(s.len(), 2);
    assert!(matches!(s.get(1), ProgressEvent::Finished));
    let terminals = (0..s.len())
        .filter(|&i| !matches!(s.get(i), ProgressEvent::Update { .. }))
        .count();
    assert_eq!(terminals, 1);
}

#[test]
fn error_event_carries_its_message() {
    let mut s = EventStream::new();
    s.fail("boom".to_string());
    assert!(s.is_terminated());
    match s.get(0) {
        ProgressEvent::Error { message } => assert_eq!(message, "boom"),
        other => panic!("expected an error event, got {:?}", other),
    }
}

#[test]
fn cleanup_is_idempotent() {
    let mut g = CleanupGuard::new();
    let first = g.actions();
    assert_eq!(
        first,
        vec![
            CleanupAction::TerminateSplitter,
            CleanupAction::TerminateExtractor,
            CleanupAction::UnmountEphemeral,
            CleanupAction::TerminateProcessGroup,
        ]
    );
    let second = g.actions();
    assert!(second.is_empty());
    let third = g.actions();
    assert!(third.is_empty());
}

#[test]
fn cleanup_targets_name_the_helpers() {
    assert_eq!(cleanup_target(&CleanupAction::TerminateSplitter), Some("wimlib-imagex"));
    assert_eq!(cleanup_target(&CleanupAction::TerminateExtractor), Some("7z"));
    assert_eq!(cleanup_target(&CleanupAction::UnmountEphemeral), Some("/tmp/windusb_*"));
    assert_eq!(cleanup_target(&CleanupAction::TerminateProcessGroup), None);
}

fn job_in_extract_phase() -> Controller {
    let mut c = Controller::new(
        "/dev/sdc".to_string(),
        "/tmp/windusb_usb_1".to_string(),
        "/tmp/windusb_iso_1".to_string(),
    );
    c.on_listing(Some("sources/install.wim"));
    c.on_prepared(true);
    c.on_wiped(true);
    c.on_formatted(true);
    c.on_mounted(true, true, Some(4_000_000_000));
    c
}

#[test]
fn extract_sample_emits_status_line_and_fraction() {
    let mut c = job_in_extract_phase();
    let before = c.event_count();
    c.sample(100_000_000, 40_000_000, true);
    assert_eq!(c.event_count(), before + 1);
    match c.event_at(before) {
        ProgressEvent::Update { message, fraction } => {
            assert_eq!(message, "Extracting boot files...");
            assert_eq!(*fraction, 740);
        }
        other => panic!("expected an update, got {:?}", other),
    }
}

#[test]
fn extract_sample_subtracts_writeback_backlog() {
    let mut c = job_in_extract_phase();
    let before = c.event_count();
    c.sample(100_000_000, 100_000_000, true);
    match c.event_at(before) {
        ProgressEvent::Update { fraction, .. } => assert_eq!(*fraction, 500),
        other => panic!("expected an update, got {:?}", other),
    }
}

#[test]
fn split_sample_reports_mib_counts_above_baseline() {
    let mut c = job_in_extract_phase();
    c.sample(100_000_000, 0, true);
    c.on_extracted(true, true);
    assert_eq!(c.phase(), Phase::Split);
    let before = c.event_count();
    c.sample(2_197_483_648, 0, true);
    match c.event_at(before) {
        ProgressEvent::Update { message, fraction } => {
            assert_eq!(message, "Splitting install.wim: 2000 / 3814 MB");
            assert_eq!(*fraction, 2500 + 2884);
        }
        other => panic!("expected an update, got {:?}", other),
    }
}

#[test]
fn sample_is_dropped_when_device_is_absent_or_phase_is_wrong() {
    let mut c = job_in_extract_phase();
    let before = c.event_count();
    c.sample(100_000_000, 0, false);
    assert_eq!(c.event_count(), before);

    let mut fresh = Controller::new(
        "/dev/sdc".to_string(),
        "/tmp/windusb_usb_2".to_string(),
        "/tmp/windusb_iso_2".to_string(),
    );
    fresh.sample(100_000_000, 0, true);
    assert_eq!(fresh.event_count(), 0);
}

#[test]
fn sync_polls_flush_then_spin_then_finish() {
    let mut c = job_in_extract_phase();
    c.on_extracted(true, true);
    c.on_split(true, true, 100 * 1024 * 1024);
    let base = c.event_count();

    c.on_sync_poll(false, false, true, 50 * 1024 * 1024);
    match c.event_at(base) {
        ProgressEvent::Update { message, fraction } => {
            assert_eq!(message, "Flushing cache: 50 MB left");
            assert_eq!(*fraction, 8950);
        }
        other => panic!("expected an update, got {:?}", other),
    }

    c.on_sync_poll(false, false, true, 1024);
    match c.event_at(base + 1) {
        ProgressEvent::Update { message, fraction } => {
            assert_eq!(message, "Finishing writes... \\");
            assert_eq!(*fraction, 9900);
        }
        other => panic!("expected an update, got {:?}", other),
    }

    c.on_sync_poll(false, false, true, 0);
    match c.event_at(base + 2) {
        ProgressEvent::Update { message, .. } => {
            assert_eq!(message, "Finishing writes... |");
        }
        other => panic!("expected an update, got {:?}", other),
    }

    c.on_sync_poll(true, false, true, 0);
    assert_eq!(c.phase(), Phase::Done);
    assert!(matches!(c.event_at(base + 3), ProgressEvent::Finished));
}

#[test]
fn start_update_names_the_drive() {
    let mut c = Controller::new(
        "/dev/sdz".to_string(),
        "/tmp/windusb_usb_3".to_string(),
        "/tmp/windusb_iso_3".to_string(),
    );
    c.on_listing(Some("sources/install.wim"));
    match c.event_at(0) {
        ProgressEvent::Update { message, fraction } => {
            assert_eq!(message, "Formatting drive /dev/sdz...");
            assert_eq!(*fraction, 200);
        }
        other => panic!("expected the start update, got {:?}", other),
    }
}
