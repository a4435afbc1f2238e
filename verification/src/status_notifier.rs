//! The optional StatusNotifierItem tray entry's capability reports.

use vstd::prelude::*;

use crate::capability::{CapabilityReport, CapabilityStatus, StatusModel};
use crate::text::owned;

verus! {

/// The stable feature ID of the tray entry.
pub const FEATURE_ID: &'static str = "app.status-notifier";

/// The report when the tray entry could not be registered: unsupported for
/// `reason`, pointing users back to the normal window.
pub fn unavailable_capability(reason: &str) -> (report: CapabilityReport)
    ensures
        report.feature_id == FEATURE_ID,
        report.status@ == StatusModel::Unsupported(reason@),
        report.summary@ == "The optional tray entry is unavailable; the normal Kestrel window remains fully usable."@,
        report.remediation matches Some(text) && text@ == "Use the normal window. On GNOME, enable an AppIndicator/StatusNotifierItem extension; on other desktops, start an SNI-compatible panel or tray host, then restart Kestrel."@,
        report.selected_backend is None,
        report.evidence@.len() == 0,
        report.alternatives_considered@.len() == 0,
{
    CapabilityReport::new(
        FEATURE_ID,
        CapabilityStatus::Unsupported { reason: owned(reason) },
        "The optional tray entry is unavailable; the normal Kestrel window remains fully usable.",
    ).with_remediation(
        "Use the normal window. On GNOME, enable an AppIndicator/StatusNotifierItem extension; on other desktops, start an SNI-compatible panel or tray host, then restart Kestrel.",
    )
}

/// The report when the desktop's tray host accepted the entry.
pub fn registered_capability() -> (report: CapabilityReport)
    ensures
        report.feature_id == FEATURE_ID,
        report.status@ == StatusModel::Supported,
        report.summary@ == "The desktop tray host accepted Kestrel's optional StatusNotifierItem."@,
        report.selected_backend matches Some(text) && text@ == "StatusNotifierItem over the user session D-Bus"@,
        report.remediation is None,
        report.evidence@.len() == 0,
        report.alternatives_considered@.len() == 0,
{
    CapabilityReport::new(
        FEATURE_ID,
        CapabilityStatus::Supported,
        "The desktop tray host accepted Kestrel's optional StatusNotifierItem.",
    ).with_selected_backend("StatusNotifierItem over the user session D-Bus")
}

} // verus!
