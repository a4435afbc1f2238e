use kestrel::clipboard_probe::{requested_backends, Backend};
use kestrel::capability::CapabilityStatus;
use kestrel::clipboard::{
    capability_report, ClipboardBackend, ClipboardError, ClipboardErrorKind, ClipboardProvider,
    PrivacyState, SessionPrivacyEvent, FEATURE_ID,
};
use kestrel::clipboard_history::{
    ClipboardCommand, ClipboardLifecycle, ClipboardPolicy, ClipboardServiceError,
    ClipboardWorker, HistoryStore,
};

#[test]
fn supported_report_is_redacted_and_names_unavailable_source_identity() {
    let report = capability_report(Ok(ClipboardProvider::WaylandDataControl), Ok(()));

    assert_eq!(report.feature_id, FEATURE_ID);
    assert_eq!(report.status, CapabilityStatus::Supported);
    assert!(report
        .evidence
        .iter()
        .any(|item| item.key == "source_application_identity" && item.value == "unavailable"));
    assert!(!report.summary.contains("WAYLAND_DISPLAY"));
}

#[test]
fn mandatory_privacy_monitor_failure_disables_history() {
    let report = capability_report(
        Ok(ClipboardProvider::X11),
        Err(ClipboardError {
            kind: ClipboardErrorKind::PrivacyMonitorFailed,
            message: "logind unavailable".to_string(),
        }),
    );

    assert!(matches!(report.status, CapabilityStatus::Unsupported { .. }));
    assert_eq!(
        report.status,
        CapabilityStatus::Unsupported {
            reason: "logind unavailable".to_string()
        }
    );
}

#[test]
fn privacy_events_fire_on_rising_edges_only() {
    let mut state = PrivacyState {
        was_locked: false,
        was_preparing_for_sleep: false,
    };
    assert_eq!(state.transition(true, false), vec![SessionPrivacyEvent::Locked]);
    assert!(state.transition(true, false).is_empty());
    assert_eq!(
        state.transition(false, true),
        vec![SessionPrivacyEvent::PreparingForSleep]
    );
    assert!(state.transition(false, false).is_empty());
}

fn policy() -> ClipboardPolicy {
    ClipboardPolicy {
        max_item_bytes: 8,
        max_items: 2,
        max_age_millis: 50,
        poll_interval_millis: 5,
    }
}

#[test]
fn store_enforces_size_deduplication_and_count_bounds() {
    let now = 1_000;
    let mut store = HistoryStore::new(policy());

    assert!(store.capture("one".to_string(), now));
    assert!(!store.capture("one".to_string(), now));
    assert!(!store.capture("oversized".to_string(), now));
    assert!(store.capture("two".to_string(), now));
    assert!(store.capture("three".to_string(), now));

    let snapshot = store.snapshot(ClipboardLifecycle::Running, None, None, now);
    assert_eq!(snapshot.items.len(), 2);
    assert_eq!(snapshot.rejected_oversize_items, 1);
    assert_eq!(snapshot.total_bytes, 8);
    assert_eq!(snapshot.items[0].id, 2);
}

#[test]
fn store_prunes_expired_items() {
    let now = 1_000;
    let mut store = HistoryStore::new(policy());
    store.capture("one".to_string(), now);

    store.prune(now + 51);

    assert!(store
        .snapshot(ClipboardLifecycle::Running, None, None, now + 51)
        .items
        .is_empty());
}

#[test]
fn invalid_policy_is_rejected() {
    let mut invalid = policy();
    invalid.max_items = 0;
    assert_eq!(
        invalid.validate(),
        Err(ClipboardServiceError::InvalidPolicy(
            "clipboard limits and polling interval must be non-zero".to_string()
        ))
    );
    assert_eq!(policy().validate(), Ok(policy()));
    assert_eq!(ClipboardPolicy::default().max_items, 100);
}

#[derive(Default)]
struct FakeBackend {
    current: Option<String>,
    clears: usize,
}

impl ClipboardBackend for FakeBackend {
    fn provider(&self) -> ClipboardProvider {
        ClipboardProvider::WaylandDataControl
    }

    fn read_text(&mut self) -> Result<Option<String>, ClipboardError> {
        Ok(self.current.clone())
    }

    fn write_text(&mut self, text: &str) -> Result<(), ClipboardError> {
        self.current = Some(text.to_string());
        Ok(())
    }

    fn clear_if_matches(&mut self, expected: &str) -> Result<bool, ClipboardError> {
        if self.current.as_deref() != Some(expected) {
            return Ok(false);
        }
        self.current = None;
        self.clears += 1;
        Ok(true)
    }
}

#[test]
fn worker_captures_and_wipes_owned_content_on_privacy_event() {
    let mut backend = FakeBackend {
        current: Some("secret".to_string()),
        clears: 0,
    };
    let mut worker = ClipboardWorker::new(policy(), ClipboardProvider::WaylandDataControl);
    let snapshot = worker.poll_clipboard(&mut backend, 10);
    assert_eq!(snapshot.items.len(), 1);
    assert!(worker
        .handle_privacy(&mut backend, Ok(vec![SessionPrivacyEvent::Locked]), 11)
        .is_none());
    assert!(worker
        .snapshot(ClipboardLifecycle::Running, 11)
        .items
        .is_empty());
    assert!(backend.current.is_none());
    assert_eq!(backend.clears, 1);
}

#[test]
fn wipe_preserves_a_newer_external_selection() {
    let mut backend = FakeBackend {
        current: Some("first".to_string()),
        clears: 0,
    };
    let mut worker = ClipboardWorker::new(policy(), ClipboardProvider::WaylandDataControl);
    worker.poll_clipboard(&mut backend, 10);
    backend.current = Some("newer".to_string());
    let snapshot = worker
        .execute(ClipboardCommand::Wipe, &mut backend, 11)
        .expect("wipe succeeds");
    assert!(snapshot.items.is_empty());
    assert_eq!(snapshot.wipe_count, 1);
    assert_eq!(backend.current.as_deref(), Some("newer"));
}

#[test]
fn stop_releases_owned_selection_and_joins_worker() {
    let mut backend = FakeBackend {
        current: Some("owned".to_string()),
        clears: 0,
    };
    let mut worker = ClipboardWorker::new(policy(), ClipboardProvider::X11);
    worker.poll_clipboard(&mut backend, 10);
    let snapshot = worker.stop(&mut backend, 12);
    assert_eq!(snapshot.lifecycle, ClipboardLifecycle::Stopped);
    assert!(backend.current.is_none());
}

#[test]
fn selecting_an_item_reowns_it_and_unknown_items_fail() {
    let mut backend = FakeBackend {
        current: Some("alpha".to_string()),
        clears: 0,
    };
    let mut worker = ClipboardWorker::new(policy(), ClipboardProvider::X11);
    worker.poll_clipboard(&mut backend, 10);
    backend.current = Some("beta".to_string());
    worker.poll_clipboard(&mut backend, 11);
    let snapshot = worker
        .execute(ClipboardCommand::SelectItem { item_id: 1 }, &mut backend, 12)
        .expect("known item");
    assert_eq!(snapshot.items.len(), 2);
    assert_eq!(backend.current.as_deref(), Some("alpha"));
    assert_eq!(
        worker.execute(ClipboardCommand::SelectItem { item_id: 42 }, &mut backend, 13),
        Err(ClipboardServiceError::UnknownItem { item_id: 42 })
    );
}

#[test]
fn privacy_monitor_failure_ends_the_worker() {
    let mut backend = FakeBackend {
        current: Some("owned".to_string()),
        clears: 0,
    };
    let mut worker = ClipboardWorker::new(policy(), ClipboardProvider::X11);
    worker.poll_clipboard(&mut backend, 10);
    let ended = worker
        .handle_privacy(
            &mut backend,
            Err(ClipboardError::new(ClipboardErrorKind::PrivacyMonitorFailed, "gone")),
            11,
        )
        .expect("worker ends");
    assert_eq!(ended.lifecycle, ClipboardLifecycle::Unavailable);
    assert_eq!(ended.last_error.as_deref(), Some("gone"));
    assert!(ended.items.is_empty());
}

#[test]
fn parses_requested_backends() {
    assert!(requested_backends(&[]).is_some());
    assert!(matches!(
        requested_backends(&["--exercise-lifecycle".to_string(), "wayland".to_string(),]),
        Some(backends) if matches!(backends.as_slice(), [Backend::Wayland])
    ));
    assert!(requested_backends(&["--exercise-lifecycle".to_string(), "invalid".to_string(),]).is_none());
    assert_eq!(
        requested_backends(&["--exercise-lifecycle".to_string(), "all".to_string()]),
        Some(vec![Backend::Wayland, Backend::X11])
    );
    assert_eq!(Backend::X11.name(), "x11");
}
