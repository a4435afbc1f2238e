//! Clipboard providers, capability rules and privacy-event detection.

use vstd::prelude::*;

use crate::capability::{CapabilityEvidence, CapabilityReport, CapabilityStatus, StatusModel};
use crate::registry::CapabilityProbe;
use crate::text::owned;

verus! {

/// The stable feature ID of clipboard history.
pub const FEATURE_ID: &'static str = "clipboard.history";

/// The clipboard mechanism a session offers.
#[derive(Debug, Clone, Copy, PartialEq, Eq, Structural)]
pub enum ClipboardProvider {
    WaylandDataControl,
    X11,
}

/// The user-facing name of a provider.
pub open spec fn provider_label(provider: ClipboardProvider) -> &'static str {
    match provider {
        ClipboardProvider::WaylandDataControl => "Wayland data-control",
        ClipboardProvider::X11 => "X11 CLIPBOARD selection",
    }
}

impl ClipboardProvider {
    /// The user-facing name of this provider.
    pub fn label(self) -> (label: &'static str)
        ensures
            label == provider_label(self),
    {
        match self {
            ClipboardProvider::WaylandDataControl => "Wayland data-control",
            ClipboardProvider::X11 => "X11 CLIPBOARD selection",
        }
    }
}

/// The category of a clipboard failure.
#[derive(Debug, Clone, Copy, PartialEq, Eq, Structural)]
pub enum ClipboardErrorKind {
    Unavailable,
    ContentUnavailable,
    ReadFailed,
    WriteFailed,
    PrivacyMonitorFailed,
}

/// A clipboard failure with a user-facing message.
#[derive(Debug, Clone, PartialEq, Eq)]
pub struct ClipboardError {
    pub kind: ClipboardErrorKind,
    pub message: String,
}

impl ClipboardError {
    /// Builds an error of the given kind.
    pub fn new(kind: ClipboardErrorKind, message: &str) -> (error: Self)
        ensures
            error.kind == kind,
            error.message@ == message@,
    {
        ClipboardError { kind, message: owned(message) }
    }
}

/// Reads, owns and releases the session clipboard.
pub trait ClipboardBackend {
    fn provider(&self) -> ClipboardProvider;

    fn read_text(&mut self) -> Result<Option<String>, ClipboardError>;

    fn write_text(&mut self, text: &str) -> Result<(), ClipboardError>;

    fn clear_if_matches(&mut self, expected: &str) -> Result<bool, ClipboardError>;
}

/// A session event after which clipboard history must be wiped.
#[derive(Debug, Clone, Copy, PartialEq, Eq, Structural)]
pub enum SessionPrivacyEvent {
    Locked,
    PreparingForSleep,
}

/// Reports session privacy events as they happen.
pub trait PrivacyEventSource {
    fn poll_events(&mut self) -> Result<Vec<SessionPrivacyEvent>, ClipboardError>;
}

/// The events a change of the session's privacy state raises: locking and
/// starting to prepare for sleep, each only on its rising edge.
pub open spec fn privacy_events(
    was_locked: bool,
    was_preparing_for_sleep: bool,
    locked: bool,
    preparing_for_sleep: bool,
) -> Seq<SessionPrivacyEvent> {
    let first: Seq<SessionPrivacyEvent> = if locked && !was_locked {
        seq![SessionPrivacyEvent::Locked]
    } else {
        seq![]
    };
    if preparing_for_sleep && !was_preparing_for_sleep {
        first.push(SessionPrivacyEvent::PreparingForSleep)
    } else {
        first
    }
}

/// Tracks the session's lock and sleep state and reports rising edges.
#[derive(Debug, Clone, Copy, PartialEq, Eq, Structural)]
pub struct PrivacyState {
    pub was_locked: bool,
    pub was_preparing_for_sleep: bool,
}

impl PrivacyState {
    /// Records a fresh reading and returns the events it raises.
    pub fn transition(&mut self, locked: bool, preparing_for_sleep: bool) -> (events: Vec<SessionPrivacyEvent>)
        ensures
            events@ == privacy_events(
                old(self).was_locked,
                old(self).was_preparing_for_sleep,
                locked,
                preparing_for_sleep,
            ),
            final(self).was_locked == locked,
            final(self).was_preparing_for_sleep == preparing_for_sleep,
    {
        let mut events: Vec<SessionPrivacyEvent> = Vec::new();
        if locked && !self.was_locked {
            events.push(SessionPrivacyEvent::Locked);
        }
        if preparing_for_sleep && !self.was_preparing_for_sleep {
            events.push(SessionPrivacyEvent::PreparingForSleep);
        }
        self.was_locked = locked;
        self.was_preparing_for_sleep = preparing_for_sleep;
        proof {
            assert(events@ =~= privacy_events(
                old(self).was_locked,
                old(self).was_preparing_for_sleep,
                locked,
                preparing_for_sleep,
            ));
        }
        events
    }
}

/// The summary of a supported clipboard report.
pub open spec fn supported_summary(provider: ClipboardProvider) -> Seq<char> {
    provider_label(provider)@ + " and mandatory lock/sleep clearing are available."@
}

/// The reason an unsupported clipboard report gives: the provider's error
/// first, else the privacy monitor's.
pub open spec fn unsupported_reason(
    provider: Result<ClipboardProvider, ClipboardError>,
    privacy: Result<(), ClipboardError>,
) -> Seq<char> {
    match provider {
        Err(error) => error.message@,
        Ok(_) => match privacy {
            Err(error) => error.message@,
            Ok(()) => "clipboard history prerequisites are unavailable"@,
        },
    }
}

/// Whether `report` is the clipboard capability report: supported, with
/// redacted evidence, exactly when both a provider and the mandatory privacy
/// monitor are available; otherwise unsupported with the first failure.
pub open spec fn describes_clipboard(
    report: CapabilityReport,
    provider: Result<ClipboardProvider, ClipboardError>,
    privacy: Result<(), ClipboardError>,
) -> bool {
    &&& report.feature_id == FEATURE_ID
    &&& match (provider, privacy) {
        (Ok(found), Ok(())) => {
            &&& report.status@ == StatusModel::Supported
            &&& report.summary@ == supported_summary(found)
            &&& report.selected_backend matches Some(backend) && backend@ == provider_label(found)@
            &&& report.alternatives_considered@.len() == 1
            &&& report.alternatives_considered@[0]@ == "X11 CLIPBOARD selection"@
            &&& report.remediation is None
            &&& report.evidence@.len() == 3
            &&& report.evidence@[0]@ == ("persistent_storage"@, "false"@)
            &&& report.evidence@[1]@ == ("source_application_identity"@, "unavailable"@)
            &&& report.evidence@[2]@ == ("lock_sleep_clear"@, "available"@)
        },
        _ => {
            &&& report.status@ == StatusModel::Unsupported(unsupported_reason(provider, privacy))
            &&& report.summary@ == "Privacy-preserving clipboard history is unavailable."@
            &&& report.selected_backend is None
            &&& report.alternatives_considered@.len() == 0
            &&& report.remediation matches Some(text) && text@ == "Run Kestrel in a logind graphical session with Wayland data-control or X11 access."@
            &&& report.evidence@.len() == 1
            &&& report.evidence@[0]@ == ("source_application_identity"@, "unavailable"@)
        },
    }
}

/// Builds the clipboard capability report from provider discovery and the
/// privacy monitor's availability.
pub fn capability_report(
    provider: Result<ClipboardProvider, ClipboardError>,
    privacy: Result<(), ClipboardError>,
) -> (report: CapabilityReport)
    ensures
        describes_clipboard(report, provider, privacy),
{
    let ghost provider_in = provider;
    let ghost privacy_in = privacy;
    match (provider, privacy) {
        (Ok(found), Ok(())) => {
            let mut summary = owned(found.label());
            summary.append(" and mandatory lock/sleep clearing are available.");
            CapabilityReport::new(FEATURE_ID, CapabilityStatus::Supported, summary.as_str())
                .with_selected_backend(found.label())
                .with_alternative("X11 CLIPBOARD selection")
                .with_evidence(CapabilityEvidence::new("persistent_storage", "false"))
                .with_evidence(CapabilityEvidence::new("source_application_identity", "unavailable"))
                .with_evidence(CapabilityEvidence::new("lock_sleep_clear", "available"))
        },
        (provider, privacy) => {
            let reason = match provider {
                Err(error) => error.message,
                Ok(_) => match privacy {
                    Err(error) => error.message,
                    Ok(()) => owned("clipboard history prerequisites are unavailable"),
                },
            };
            CapabilityReport::new(
                FEATURE_ID,
                CapabilityStatus::Unsupported { reason },
                "Privacy-preserving clipboard history is unavailable.",
            ).with_remediation(
                "Run Kestrel in a logind graphical session with Wayland data-control or X11 access.",
            ).with_evidence(CapabilityEvidence::new("source_application_identity", "unavailable"))
        },
    }
}

/// What the clipboard capability depends on in the current session.
pub trait ClipboardEnvironment {
    fn discover_provider(&self) -> Result<ClipboardProvider, ClipboardError>;

    fn privacy_monitor(&self) -> Result<(), ClipboardError>;
}

/// Reports clipboard-history capability for a session.
#[derive(Debug, Clone, Copy, Default)]
pub struct ClipboardCapabilityProbe<E> {
    pub environment: E,
}

impl<E> ClipboardCapabilityProbe<E> {
    /// A probe over `environment`.
    pub fn new(environment: E) -> (probe: Self)
        ensures
            probe.environment == environment,
    {
        ClipboardCapabilityProbe { environment }
    }
}

impl<E: ClipboardEnvironment> CapabilityProbe for ClipboardCapabilityProbe<E> {
    /// The report for whatever the environment answered about the provider
    /// and the privacy monitor.
    fn probe(&self) -> (report: CapabilityReport)
        ensures
            exists|provider: Result<ClipboardProvider, ClipboardError>, privacy: Result<(), ClipboardError>|
                #[trigger] describes_clipboard(report, provider, privacy),
    {
        capability_report(self.environment.discover_provider(), self.environment.privacy_monitor())
    }
}

} // verus!
