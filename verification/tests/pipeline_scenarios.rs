use windusb_core::events::ProgressEvent;
use windusb_core::pipeline::Action;
use windusb_core::pipeline::Controller;
use windusb_core::pipeline::Phase;

fn new_job() -> Controller {
    Controller::new(
        "/dev/sdb".to_string(),
        "/tmp/windusb_usb_7".to_string(),
        "/tmp/windusb_iso_7".to_string(),
    )
}

fn collected_events(c: &Controller) -> Vec<ProgressEvent> {
    let mut out = Vec::new();
    let n = c.event_count();
    let mut i = 0;
    while i < n {
        out.push(c.event_at(i).clone());
        i += 1;
    }
    out
}

fn terminal_count(events: &[ProgressEvent]) -> usize {
    events
        .iter()
        .filter(|e| !matches!(e, ProgressEvent::Update { .. }))
        .count()
}

fn update_fractions(events: &[ProgressEvent]) -> Vec<u32> {
    events
        .iter()
        .filter_map(|e| match e {
            ProgressEvent::Update { fraction, .. } => Some(*fraction),
            _ => None,
        })
        .collect()
}

#[test]
fn wim_listing_runs_all_phases_to_finished() {
    let mut c = new_job();
    assert_eq!(c.next_action(), Some(Action::ListImage));

    c.on_listing(Some("... sources/boot.wim\n... sources/install.wim\n"));
    assert_eq!(c.phase(), Phase::Prepare);
    assert_eq!(c.next_action(), Some(Action::UnmountStale));

    c.on_prepared(true);
    assert_eq!(c.phase(), Phase::Wipe);
    assert_eq!(c.next_action(), Some(Action::WipeAndPartition));

    c.on_wiped(true);
    assert_eq!(c.phase(), Phase::Format);
    assert_eq!(
        c.next_action(),
        Some(Action::FormatPartition { partition: "/dev/sdb1".to_string() })
    );

    c.on_formatted(true);
    assert_eq!(c.phase(), Phase::Mount);
    assert_eq!(
        c.next_action(),
        Some(Action::MountTargets { partition: "/dev/sdb1".to_string() })
    );

    c.on_mounted(true, true, Some(5_000_000_000));
    assert_eq!(c.phase(), Phase::Extract);
    assert_eq!(
        c.next_action(),
        Some(Action::ExtractImage { exclude_file: "install.wim".to_string() })
    );

    c.sample(100_000_000, 40_000_000, true);
    c.on_extracted(true, true);
    assert_eq!(c.phase(), Phase::Split);
    assert_eq!(
        c.next_action(),
        Some(Action::SplitPayload {
            source: "/tmp/windusb_iso_7/sources/install.wim".to_string(),
            destination: "/tmp/windusb_usb_7/sources/install.swm".to_string(),
            chunk_mib: 3400,
        })
    );

    c.sample(2_100_000_000, 30_000_000, true);
    c.on_split(true, true, 200_000_000);
    assert_eq!(c.phase(), Phase::Finalize);
    assert_eq!(c.next_action(), Some(Action::SyncAndUnmount));

    c.on_sync_poll(false, false, true, 90_000_000);
    c.on_sync_poll(false, false, true, 4_000_000);
    c.on_sync_poll(true, false, true, 0);
    assert_eq!(c.phase(), Phase::Done);
    assert_eq!(c.next_action(), None);
    assert!(c.is_ended());

    let events = collected_events(&c);
    assert!(matches!(events.last(), Some(ProgressEvent::Finished)));
    assert_eq!(terminal_count(&events), 1);
    let fractions = update_fractions(&events);
    assert!(!fractions.is_empty());
    for pair in fractions.windows(2) {
        assert!(pair[0] <= pair[1]);
    }
}

#[test]
fn device_lost_before_format_emits_disconnect_and_no_format_action() {
    let mut c = new_job();
    c.on_listing(Some("sources/install.wim"));
    c.on_prepared(true);
    assert_eq!(c.phase(), Phase::Wipe);

    c.on_wiped(false);
    assert_eq!(c.phase(), Phase::Failed);
    assert_eq!(c.next_action(), None);

    let events = collected_events(&c);
    match events.last() {
        Some(ProgressEvent::Error { message }) => {
            assert_eq!(message, "Drive disconnected before formatting");
        }
        other => panic!("expected a terminal error, got {:?}", other),
    }
    assert_eq!(terminal_count(&events), 1);
}

#[test]
fn listing_without_payload_fails_before_any_destructive_action() {
    let mut c = new_job();
    c.on_listing(Some("readme.txt\nboot/bcd\n"));
    assert_eq!(c.phase(), Phase::Failed);
    assert_eq!(c.next_action(), None);

    let events = collected_events(&c);
    assert_eq!(events.len(), 1);
    match &events[0] {
        ProgressEvent::Error { message } => {
            assert_eq!(message, "Invalid ISO: install.wim/esd not found");
        }
        other => panic!("expected the invalid-image error, got {:?}", other),
    }
}

#[test]
fn missing_listing_fails_the_job() {
    let mut c = new_job();
    c.on_listing(None);
    assert_eq!(c.phase(), Phase::Failed);
    assert_eq!(c.next_action(), None);
}

#[test]
fn device_lost_between_mount_and_extract_never_finishes() {
    let mut c = new_job();
    c.on_listing(Some("sources/install.wim"));
    c.on_prepared(true);
    c.on_wiped(true);
    c.on_formatted(true);
    assert_eq!(c.phase(), Phase::Mount);

    c.on_mounted(true, false, Some(4_000_000_000));
    assert_eq!(c.phase(), Phase::Failed);

    let events = collected_events(&c);
    match events.last() {
        Some(ProgressEvent::Error { message }) => {
            assert!(message.contains("disconnected"));
        }
        other => panic!("expected a terminal error, got {:?}", other),
    }
    assert!(
        !events.iter().any(|e| matches!(e, ProgressEvent::Finished)),
        "no Finished event may ever be emitted on a failed run"
    );
}

#[test]
fn esd_listing_keeps_native_extension_in_split_destination() {
    let mut c = new_job();
    c.on_listing(Some("sources/install.esd\n"));
    c.on_prepared(true);
    c.on_wiped(true);
    c.on_formatted(true);
    c.on_mounted(true, true, None);
    assert_eq!(
        c.next_action(),
        Some(Action::ExtractImage { exclude_file: "install.esd".to_string() })
    );
    c.on_extracted(true, true);
    assert_eq!(
        c.next_action(),
        Some(Action::SplitPayload {
            source: "/tmp/windusb_iso_7/sources/install.esd".to_string(),
            destination: "/tmp/windusb_usb_7/sources/install.esd".to_string(),
            chunk_mib: 3400,
        })
    );
}

#[test]
fn format_failure_is_fatal_with_verbatim_message() {
    let mut c = new_job();
    c.on_listing(Some("sources/install.wim"));
    c.on_prepared(true);
    c.on_wiped(true);
    c.on_formatted(false);
    assert_eq!(c.phase(), Phase::Failed);
    let events = collected_events(&c);
    match events.last() {
        Some(ProgressEvent::Error { message }) => {
            assert_eq!(message, "Formatting failed. Drive may have been removed.");
        }
        other => panic!("expected the format error, got {:?}", other),
    }
}

#[test]
fn mount_failure_is_fatal() {
    let mut c = new_job();
    c.on_listing(Some("sources/install.wim"));
    c.on_prepared(true);
    c.on_wiped(true);
    c.on_formatted(true);
    c.on_mounted(false, true, None);
    assert_eq!(c.phase(), Phase::Failed);
    let events = collected_events(&c);
    match events.last() {
        Some(ProgressEvent::Error { message }) => {
            assert_eq!(message, "Failed to mount USB drive.");
        }
        other => panic!("expected the mount error, got {:?}", other),
    }
}

#[test]
fn extraction_failure_reports_removed_or_tool_error() {
    let mut c = new_job();
    c.on_listing(Some("sources/install.wim"));
    c.on_prepared(true);
    c.on_wiped(true);
    c.on_formatted(true);
    c.on_mounted(true, true, Some(1));
    c.on_extracted(false, true);
    assert_eq!(c.phase(), Phase::Failed);
    let events = collected_events(&c);
    match events.last() {
        Some(ProgressEvent::Error { message }) => {
            assert_eq!(message, "Drive removed or 7z error during extraction.");
        }
        other => panic!("expected the extraction error, got {:?}", other),
    }
}

#[test]
fn split_failure_reports_removed_or_tool_error() {
    let mut c = new_job();
    c.on_listing(Some("sources/install.wim"));
    c.on_prepared(true);
    c.on_wiped(true);
    c.on_formatted(true);
    c.on_mounted(true, true, Some(1));
    c.on_extracted(true, true);
    c.on_split(true, false, 0);
    assert_eq!(c.phase(), Phase::Failed);
    let events = collected_events(&c);
    match events.last() {
        Some(ProgressEvent::Error { message }) => {
            assert_eq!(message, "Drive removed or wimlib error during split.");
        }
        other => panic!("expected the split error, got {:?}", other),
    }
}

#[test]
fn sync_failure_and_disconnect_during_sync_are_fatal() {
    let mut c = new_job();
    c.on_listing(Some("sources/install.wim"));
    c.on_prepared(true);
    c.on_wiped(true);
    c.on_formatted(true);
    c.on_mounted(true, true, Some(1));
    c.on_extracted(true, true);
    c.on_split(true, true, 500);
    c.on_sync_poll(false, true, true, 0);
    assert_eq!(c.phase(), Phase::Failed);
    let events = collected_events(&c);
    match events.last() {
        Some(ProgressEvent::Error { message }) => {
            assert_eq!(message, "Sync failed. Drive was likely unplugged.");
        }
        other => panic!("expected the sync error, got {:?}", other),
    }

    let mut c2 = new_job();
    c2.on_listing(Some("sources/install.wim"));
    c2.on_prepared(true);
    c2.on_wiped(true);
    c2.on_formatted(true);
    c2.on_mounted(true, true, Some(1));
    c2.on_extracted(true, true);
    c2.on_split(true, true, 500);
    c2.on_sync_poll(false, false, false, 0);
    assert_eq!(c2.phase(), Phase::Failed);
    let events2 = collected_events(&c2);
    match events2.last() {
        Some(ProgressEvent::Error { message }) => {
            assert_eq!(message, "Drive disconnected during final sync.");
        }
        other => panic!("expected the disconnect error, got {:?}", other),
    }
}

#[test]
fn listing_with_both_payloads_prefers_wim() {
    let mut c = new_job();
    c.on_listing(Some("sources/install.wim\nsources/install.esd\n"));
    c.on_prepared(true);
    c.on_wiped(true);
    c.on_formatted(true);
    c.on_mounted(true, true, Some(1));
    assert_eq!(
        c.next_action(),
        Some(Action::ExtractImage { exclude_file: "install.wim".to_string() })
    );
}
