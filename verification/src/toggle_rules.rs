//! The decisions behind each quick-toggle adapter: confirmations, request
//! checks, level arithmetic, error classification and report wording.

use vstd::prelude::*;

use crate::capability::{
    CapabilityEvidence, CapabilityReport, CapabilityStatus, Permission, ReportModel, StatusModel,
};
use crate::notifications::{NotificationError, NotificationErrorKind};
use crate::quick_toggles::{
    BatteryReading, MutationConfirmation, QuickToggleControl, QuickToggleError, QuickToggleErrorKind,
    QuickToggleId, QuickToggleMutation, QuickToggleObservation, ToggleAction, toggle_feature_id,
    toggle_label,
};
use crate::text::{
    chars_of, contains_seq, contains_text, decimal, decimal_text, optional_text, owned, push_char, push_decimal,
    str_equal,
};
use crate::text_parse::{parse_u64, parsed_u64, trim_text, trimmed};

verus! {

/// A toggle's report: its feature, status, summary, selected backend,
/// remediation and evidence, with no alternatives considered.
pub open spec fn toggle_report(
    id: QuickToggleId,
    status: StatusModel,
    summary: Seq<char>,
    backend: Option<Seq<char>>,
    remediation: Option<Seq<char>>,
    evidence: Seq<(Seq<char>, Seq<char>)>,
) -> ReportModel {
    ReportModel {
        feature_id: toggle_feature_id(id)@,
        status,
        summary,
        selected_backend: backend,
        alternatives_considered: Seq::empty(),
        remediation,
        evidence,
    }
}

/// The report of a toggle its adapter can drive.
pub open spec fn supported_report(id: QuickToggleId, summary: Seq<char>, backend: Seq<char>) -> ReportModel {
    toggle_report(id, StatusModel::Supported, summary, Some(backend), None, Seq::empty())
}

/// The report of a toggle that needs a permission the session lacks.
pub open spec fn denied_report(id: QuickToggleId, permission: Permission, summary: Seq<char>, remediation: Seq<char>) -> ReportModel {
    toggle_report(id, StatusModel::NeedsPermission(permission), summary, None, Some(remediation), Seq::empty())
}

/// The report of a toggle whose session service failed.
pub open spec fn unavailable_report(
    id: QuickToggleId,
    dependency: Seq<char>,
    kind: QuickToggleErrorKind,
    message: Seq<char>,
) -> ReportModel {
    toggle_report(
        id,
        if kind == QuickToggleErrorKind::Unavailable {
            StatusModel::MissingDependency(dependency)
        } else {
            StatusModel::Unsupported(message)
        },
        toggle_label(id)@ + " is unavailable on this session."@,
        None,
        Some(message),
        Seq::empty(),
    )
}

/// The report of a toggle its adapter can drive.
pub fn supported(id: QuickToggleId, summary: &str, backend: &str) -> (report: CapabilityReport)
    ensures
        report.feature_id == toggle_feature_id(id),
        report@ == supported_report(id, summary@, backend@),
        report.status@ == StatusModel::Supported,
        report.summary@ == summary@,
        report.selected_backend matches Some(text) && text@ == backend@,
        report.remediation is None,
        report.evidence@.len() == 0,
{
    let report = CapabilityReport::new(id.feature_id(), CapabilityStatus::Supported, summary).with_selected_backend(backend);
    proof {
        assert(report@.alternatives_considered =~= Seq::<Seq<char>>::empty());
        assert(report@.evidence =~= Seq::<(Seq<char>, Seq<char>)>::empty());
    }
    report
}

/// The report of a toggle that needs a permission the session lacks.
pub fn permission_denied(id: QuickToggleId, permission: Permission, summary: &str, remediation: &str) -> (report: CapabilityReport)
    ensures
        report.feature_id == toggle_feature_id(id),
        report@ == denied_report(id, permission, summary@, remediation@),
        report.status@ == StatusModel::NeedsPermission(permission),
        report.summary@ == summary@,
        report.remediation matches Some(text) && text@ == remediation@,
        report.selected_backend is None,
        report.evidence@.len() == 0,
{
    let report = CapabilityReport::new(id.feature_id(), CapabilityStatus::NeedsPermission { permission }, summary).with_remediation(remediation);
    proof {
        assert(report@.alternatives_considered =~= Seq::<Seq<char>>::empty());
        assert(report@.evidence =~= Seq::<(Seq<char>, Seq<char>)>::empty());
    }
    report
}

/// The lower-case form of an ASCII letter; other characters are kept.
pub open spec fn ascii_lower(character: char) -> char {
    if 'A' <= character && character <= 'Z' {
        (character as u32 + 32) as char
    } else {
        character
    }
}

/// A text with its ASCII letters in lower case.
pub open spec fn ascii_lowercase(text: Seq<char>) -> Seq<char> {
    text.map_values(|character: char| ascii_lower(character))
}

fn lower_char(character: char) -> (lowered: char)
    ensures
        lowered == ascii_lower(character),
{
    if 'A' <= character && character <= 'Z' {
        ((character as u8) + 32) as char
    } else {
        character
    }
}

/// Appends `text` with its ASCII letters in lower case.
pub fn push_lowercase(target: &mut String, text: &str)
    ensures
        final(target)@ == old(target)@ + ascii_lowercase(text@),
{
    let characters = chars_of(text);
    let mut index: usize = 0;
    while index < characters.len()
        invariant
            characters@ == text@,
            index <= characters@.len(),
            target@ == old(target)@ + ascii_lowercase(text@.subrange(0, index as int)),
        decreases characters@.len() - index,
    {
        push_char(target, lower_char(characters[index]));
        assert(ascii_lowercase(text@.subrange(0, index + 1)) =~= ascii_lowercase(text@.subrange(0, index as int)).push(
            ascii_lower(text@[index as int]),
        ));
        index += 1;
    }
    assert(text@.subrange(0, text@.len() as int) =~= text@);
}

/// The error for a switch given something other than on or off.
pub fn invalid_switch(label: &str) -> (error: QuickToggleError)
    ensures
        error.kind == QuickToggleErrorKind::InvalidRequest,
        error.message@ == label@ + " accepts only an enabled/disabled value"@,
{
    let mut message = owned(label);
    message.append(" accepts only an enabled/disabled value");
    QuickToggleError { kind: QuickToggleErrorKind::InvalidRequest, message }
}

/// The confirmation that turning a radio off asks for.
pub open spec fn radio_off(label: Seq<char>) -> (Seq<char>, Seq<char>) {
    (
        "Turn off "@ + label + "; active connections and devices may disconnect."@,
        "radio-off:"@ + ascii_lowercase(label),
    )
}

/// The confirmation that turning a radio off asks for.
pub fn radio_off_confirmation(label: &str) -> (confirmation: MutationConfirmation)
    ensures
        confirmation@ == radio_off(label@),
{
    let mut scope = owned("Turn off ");
    scope.append(label);
    scope.append("; active connections and devices may disconnect.");
    let mut token = owned("radio-off:");
    push_lowercase(&mut token, label);
    MutationConfirmation { scope, token }
}

/// A radio switch: turning it off needs a confirmation, turning it on does
/// not, and anything but on or off is refused.
pub fn radio_confirmation(label: &str, mutation: &QuickToggleMutation) -> (result: Result<Option<MutationConfirmation>, QuickToggleError>)
    ensures
        match *mutation {
            QuickToggleMutation::SetEnabled(false) => result matches Ok(Some(confirmation)) && confirmation@ == radio_off(label@),
            QuickToggleMutation::SetEnabled(true) => result matches Ok(None),
            _ => result matches Err(error) && error.kind == QuickToggleErrorKind::InvalidRequest
                && error.message@ == label@ + " accepts only an enabled/disabled value"@,
        },
{
    match mutation {
        QuickToggleMutation::SetEnabled(false) => Ok(Some(radio_off_confirmation(label))),
        QuickToggleMutation::SetEnabled(true) => Ok(None),
        _ => Err(invalid_switch(label)),
    }
}

/// Checks the token a caller supplied against the confirmation a mutation
/// needs: a needed confirmation must be echoed exactly.
pub fn check_confirmation(
    id: QuickToggleId,
    expected: Option<MutationConfirmation>,
    supplied: Option<&str>,
) -> (result: Result<(), QuickToggleError>)
    ensures
        match expected {
            None => result is Ok,
            Some(needed) => if supplied matches Some(token) && token@ == needed.token@ {
                result is Ok
            } else {
                result matches Err(error) && error.kind == QuickToggleErrorKind::ConfirmationRequired
                    && error.message@ == toggle_label(id)@ + " requires confirmation for: "@ + needed.scope@
            },
        },
{
    match expected {
        None => Ok(()),
        Some(needed) => {
            let matched = match supplied {
                Some(token) => str_equal(token, needed.token.as_str()),
                None => false,
            };
            if matched {
                Ok(())
            } else {
                let mut message = owned(id.label());
                message.append(" requires confirmation for: ");
                message.append(needed.scope.as_str());
                Err(QuickToggleError { kind: QuickToggleErrorKind::ConfirmationRequired, message })
            }
        },
    }
}

/// Which kind of backlight a level applies to.
#[derive(Debug, Clone, Copy, PartialEq, Eq, Structural)]
pub enum DeviceKind {
    Display,
    Keyboard,
}

/// `a * b`, capped at the largest `u64`.
pub open spec fn saturating_product(a: u64, b: u64) -> u64 {
    if a as int * b as int > u64::MAX {
        u64::MAX
    } else {
        (a * b) as u64
    }
}

/// `a + b`, capped at the largest `u64`.
pub open spec fn saturating_sum(a: u64, b: u64) -> u64 {
    if a as int + b as int > u64::MAX {
        u64::MAX
    } else {
        (a + b) as u64
    }
}

/// A backlight's brightness as a rounded percentage, at most one hundred; a
/// zero maximum reads as zero.
pub open spec fn brightness_percent(current: u64, maximum: u64) -> u8 {
    if maximum == 0 {
        0u8
    } else {
        let ratio = saturating_sum(saturating_product(current, 100), maximum / 2) / maximum;
        if ratio > 100 {
            100u8
        } else {
            ratio as u8
        }
    }
}

fn saturating_mul(a: u64, b: u64) -> (product: u64)
    ensures
        product == saturating_product(a, b),
{
    a.checked_mul(b).unwrap_or(u64::MAX)
}

fn saturating_add(a: u64, b: u64) -> (sum: u64)
    ensures
        sum == saturating_sum(a, b),
{
    a.checked_add(b).unwrap_or(u64::MAX)
}

/// A backlight's brightness as a rounded percentage.
pub fn percentage(current: u64, maximum: u64) -> (percent: u8)
    ensures
        percent == brightness_percent(current, maximum),
{
    if maximum == 0 {
        return 0;
    }
    let ratio = saturating_add(saturating_mul(current, 100), maximum / 2) / maximum;
    if ratio > 100 {
        100
    } else {
        ratio as u8
    }
}

/// The lowest level a backlight may be set to: a display never goes black.
pub open spec fn minimum_level(kind: DeviceKind) -> u64 {
    match kind {
        DeviceKind::Display => 1,
        DeviceKind::Keyboard => 0,
    }
}

/// The raw level written for a requested percentage: rounded, at least the
/// device's minimum, at most its maximum.
pub open spec fn raw_level(kind: DeviceKind, requested: u8, maximum: u64) -> u64 {
    let floor = minimum_level(kind);
    let wanted = if (requested as u64) < floor { floor } else { requested as u64 };
    let raw = saturating_sum(saturating_product(maximum, wanted), 50) / 100;
    if raw < floor {
        floor
    } else if raw > maximum {
        maximum
    } else {
        raw
    }
}

/// Checks a level request and computes the raw level to write; only a
/// percentage from zero to one hundred is accepted.
pub fn backlight_level(kind: DeviceKind, mutation: &QuickToggleMutation, maximum: u64) -> (result: Result<u64, QuickToggleError>)
    requires
        maximum > 0,
    ensures
        match *mutation {
            QuickToggleMutation::SetLevel(requested) => if requested > 100 {
                result matches Err(error) && error.kind == QuickToggleErrorKind::InvalidRequest
                    && error.message@ == "brightness "@ + decimal(requested as nat) + "% is outside the supported 0..=100% range"@
            } else {
                result == Ok::<u64, QuickToggleError>(raw_level(kind, requested, maximum))
            },
            _ => result matches Err(error) && error.kind == QuickToggleErrorKind::InvalidRequest
                && error.message@ == "this adapter accepts only a percentage level"@,
        },
{
    let requested = match mutation {
        QuickToggleMutation::SetLevel(requested) => *requested,
        _ => {
            return Err(QuickToggleError::new(QuickToggleErrorKind::InvalidRequest, "this adapter accepts only a percentage level"));
        },
    };
    if requested > 100 {
        let mut message = owned("brightness ");
        push_decimal(&mut message, requested as u64);
        message.append("% is outside the supported 0..=100% range");
        return Err(QuickToggleError { kind: QuickToggleErrorKind::InvalidRequest, message });
    }
    let floor: u64 = match kind {
        DeviceKind::Display => 1,
        DeviceKind::Keyboard => 0,
    };
    let wanted: u64 = if (requested as u64) < floor { floor } else { requested as u64 };
    let raw = saturating_add(saturating_mul(maximum, wanted), 50) / 100;
    if raw < floor {
        Ok(floor)
    } else if raw > maximum {
        Ok(maximum)
    } else {
        Ok(raw)
    }
}

/// How a backlight reading is observed.
pub fn backlight_observation(device_name: &str, current: u64, maximum: u64) -> (observation: QuickToggleObservation)
    ensures
        observation.control@ == crate::quick_toggles::ControlModel::Level(brightness_percent(current, maximum)),
        observation.detail@ == device_name@ + " is at "@ + decimal(brightness_percent(current, maximum) as nat) + "%."@,
{
    let level = percentage(current, maximum);
    let mut detail = owned(device_name);
    detail.append(" is at ");
    push_decimal(&mut detail, level as u64);
    detail.append("%.");
    QuickToggleObservation { control: QuickToggleControl::Level { percentage: level }, detail }
}

/// Whether a device directory can hold a backlight of this kind: any device
/// for a display, one whose name holds `kbd_backlight` in any case for a
/// keyboard.
pub open spec fn backlight_candidate(kind: DeviceKind, name: Seq<char>) -> bool {
    match kind {
        DeviceKind::Display => true,
        DeviceKind::Keyboard => contains_seq(ascii_lowercase(name), "kbd_backlight"@),
    }
}

/// Whether a device directory can hold a backlight of this kind.
pub fn is_backlight_candidate(kind: DeviceKind, name: &str) -> (candidate: bool)
    ensures
        candidate == backlight_candidate(kind, name@),
{
    match kind {
        DeviceKind::Display => true,
        DeviceKind::Keyboard => {
            let mut lower = String::new();
            push_lowercase(&mut lower, name);
            assert(lower@ =~= ascii_lowercase(name@));
            contains_text(lower.as_str(), "kbd_backlight")
        },
    }
}

/// The refusal when no backlight of this kind has a usable range.
pub fn no_backlight(kind: DeviceKind) -> (error: QuickToggleError)
    ensures
        error.kind == QuickToggleErrorKind::Unavailable,
        error.message@ == match kind {
            DeviceKind::Display => "no internal backlight device was detected"@,
            DeviceKind::Keyboard => "no keyboard backlight device was detected"@,
        },
{
    QuickToggleError::new(
        QuickToggleErrorKind::Unavailable,
        match kind {
            DeviceKind::Display => "no internal backlight device was detected",
            DeviceKind::Keyboard => "no keyboard backlight device was detected",
        },
    )
}

/// A brightness value read from the file at `source`: an unsigned number
/// between optional surrounding whitespace.
pub fn brightness_value(source: &str, contents: &str) -> (result: Result<u64, QuickToggleError>)
    ensures
        match parsed_u64(trimmed(contents@)) {
            Some(value) => result == Ok::<u64, QuickToggleError>(value),
            None => result matches Err(error) && error.kind == QuickToggleErrorKind::Protocol
                && error.message@ == source@ + " did not contain an unsigned brightness value"@,
        },
{
    let text = trim_text(contents);
    match parse_u64(text.as_str()) {
        Some(value) => Ok(value),
        None => {
            let mut message = owned(source);
            message.append(" did not contain an unsigned brightness value");
            Err(QuickToggleError { kind: QuickToggleErrorKind::Protocol, message })
        },
    }
}

/// The failure of a file operation: a refusal is a permission problem,
/// anything else an I/O error; the text says what was being done.
pub fn io_failure(context: &str, permission_denied: bool, error: &str) -> (failure: QuickToggleError)
    ensures
        failure.kind == if permission_denied { QuickToggleErrorKind::PermissionDenied } else { QuickToggleErrorKind::Io },
        failure.message@ == context@ + ": "@ + error@,
{
    let mut message = owned(context);
    message.append(": ");
    message.append(error);
    QuickToggleError {
        kind: if permission_denied { QuickToggleErrorKind::PermissionDenied } else { QuickToggleErrorKind::Io },
        message,
    }
}

/// How opening a backlight's brightness control for writing went.
#[derive(Debug)]
pub enum ControlAccess {
    Writable,
    Denied,
    Failed(String),
}

/// The report of a backlight toggle from its discovery and from opening its
/// brightness control.
pub open spec fn backlight_report(
    id: QuickToggleId,
    kind: DeviceKind,
    discovery: Result<String, QuickToggleError>,
    access: ControlAccess,
) -> ReportModel {
    let label = toggle_label(id)@;
    match discovery {
        Err(error) => toggle_report(
            id,
            StatusModel::Unsupported(error.message@),
            label + " hardware was not detected."@,
            None,
            Some(match kind {
                DeviceKind::Display => "Use the display or compositor controls for external and unsupported panels."@,
                DeviceKind::Keyboard => "Use the keyboard firmware or desktop control when no sysfs LED is exposed."@,
            }),
            Seq::empty(),
        ),
        Ok(device) => match access {
            ControlAccess::Writable => toggle_report(
                id,
                StatusModel::Supported,
                label + " can be changed for the detected device."@,
                Some("Linux sysfs backlight"@),
                None,
                seq![("device"@, device@)],
            ),
            ControlAccess::Denied => toggle_report(
                id,
                StatusModel::NeedsPermission(Permission::HardwareControl),
                label + " is visible but not writable by the current user."@,
                None,
                Some("Grant a narrowly scoped udev/logind permission for this backlight; Kestrel will not elevate itself."@),
                seq![("device"@, device@)],
            ),
            ControlAccess::Failed(reason) => toggle_report(
                id,
                StatusModel::Unsupported("the brightness control cannot be opened: "@ + reason@),
                label + " cannot be controlled."@,
                None,
                Some("Inspect the detected backlight device and restore current-user access: "@ + reason@),
                Seq::empty(),
            ),
        },
    }
}

/// The report of a backlight toggle from the name of the device found (or
/// why none was) and from opening its brightness control.
pub fn backlight_capability(
    id: QuickToggleId,
    kind: DeviceKind,
    discovery: Result<String, QuickToggleError>,
    access: ControlAccess,
) -> (report: CapabilityReport)
    ensures
        report.feature_id == toggle_feature_id(id),
        report@ == backlight_report(id, kind, discovery, access),
{
    let mut label = owned(id.label());
    match discovery {
        Err(error) => {
            label.append(" hardware was not detected.");
            let report = CapabilityReport::new(
                id.feature_id(),
                CapabilityStatus::Unsupported { reason: error.message.clone() },
                label.as_str(),
            ).with_remediation(match kind {
                DeviceKind::Display => "Use the display or compositor controls for external and unsupported panels.",
                DeviceKind::Keyboard => "Use the keyboard firmware or desktop control when no sysfs LED is exposed.",
            });
            proof {
                assert(report@.alternatives_considered =~= Seq::<Seq<char>>::empty());
                assert(report@.evidence =~= Seq::<(Seq<char>, Seq<char>)>::empty());
            }
            report
        },
        Ok(device) => match access {
            ControlAccess::Writable => {
                label.append(" can be changed for the detected device.");
                let report = supported(id, label.as_str(), "Linux sysfs backlight").with_evidence(
                    CapabilityEvidence::new("device", device.as_str()),
                );
                proof {
                    assert(report@.evidence =~= seq![("device"@, device@)]);
                }
                report
            },
            ControlAccess::Denied => {
                label.append(" is visible but not writable by the current user.");
                let report = permission_denied(
                    id,
                    Permission::HardwareControl,
                    label.as_str(),
                    "Grant a narrowly scoped udev/logind permission for this backlight; Kestrel will not elevate itself.",
                ).with_evidence(CapabilityEvidence::new("device", device.as_str()));
                proof {
                    assert(report@.evidence =~= seq![("device"@, device@)]);
                }
                report
            },
            ControlAccess::Failed(reason) => {
                label.append(" cannot be controlled.");
                let mut status_reason = owned("the brightness control cannot be opened: ");
                status_reason.append(reason.as_str());
                let mut remediation = owned("Inspect the detected backlight device and restore current-user access: ");
                remediation.append(reason.as_str());
                let report = CapabilityReport::new(
                    id.feature_id(),
                    CapabilityStatus::Unsupported { reason: status_reason },
                    label.as_str(),
                ).with_remediation(remediation.as_str());
                proof {
                    assert(report@.alternatives_considered =~= Seq::<Seq<char>>::empty());
                    assert(report@.evidence =~= Seq::<(Seq<char>, Seq<char>)>::empty());
                }
                report
            },
        },
    }
}

/// The charge a battery's `capacity` file reports: a number up to 255,
/// capped at one hundred.
pub open spec fn capacity_of(contents: Option<String>) -> Option<u8> {
    match contents {
        Some(text) => match crate::system_monitor::parsed_bounded(trimmed(text@), 255) {
            Some(value) => Some(if value > 100 { 100u8 } else { value as u8 }),
            None => None,
        },
        None => None,
    }
}

/// The power supply read from a sysfs directory named `name`, when its
/// `type` file could be read and says `Battery`.
pub fn battery_reading(
    name: &str,
    kind: Option<String>,
    capacity: Option<String>,
    status: Option<String>,
) -> (reading: Option<BatteryReading>)
    ensures
        (kind matches Some(text) && trimmed(text@) == "Battery"@) <==> reading is Some,
        reading matches Some(battery) ==> battery.name@ == name@ && battery.capacity == capacity_of(capacity)
            && optional_text(battery.status) == match status {
                Some(text) => Some(trimmed(text@)),
                None => None,
            },
{
    let kind_text = match kind {
        Some(text) => trim_text(text.as_str()),
        None => {
            return None;
        },
    };
    if !str_equal(kind_text.as_str(), "Battery") {
        return None;
    }
    let charge = match capacity {
        Some(text) => {
            let trimmed_text = trim_text(text.as_str());
            match crate::system_monitor::parse_u8(trimmed_text.as_str()) {
                Some(value) => Some(if value > 100 { 100u8 } else { value }),
                None => None,
            }
        },
        None => None,
    };
    let state = match status {
        Some(text) => Some(trim_text(text.as_str())),
        None => None,
    };
    Some(BatteryReading { name: owned(name), capacity: charge, status: state })
}

/// The batteries ordered by name.
pub fn batteries_by_name(batteries: Vec<BatteryReading>) -> (sorted: Vec<BatteryReading>)
    ensures
        sorted@ == crate::sorting::sorted_by_key(batteries@),
{
    crate::sorting::sort_by_key(batteries)
}

/// How far an inspection of the local Trash has got: entries visited and
/// bytes counted.
#[derive(Debug, Clone, Copy, PartialEq, Eq, Structural)]
pub struct TrashScan {
    pub visited: u64,
    pub bytes: u64,
}

/// The most entries an inspection of the local Trash visits.
pub const MAX_TRASH_ENTRIES: u64 = 100000;

/// Counts one more Trash entry of `length` bytes; visiting more than
/// [`MAX_TRASH_ENTRIES`] entries ends the inspection.
pub fn trash_scan_step(scan: TrashScan, length: u64) -> (next: Result<TrashScan, QuickToggleError>)
    ensures
        scan.visited + 1 > MAX_TRASH_ENTRIES ==> (next matches Err(error) && error.kind == QuickToggleErrorKind::InvalidRequest
            && error.message@ == "the local Trash exceeds the bounded inspection limit of 100000 entries"@),
        scan.visited + 1 <= MAX_TRASH_ENTRIES ==> next == Ok::<TrashScan, QuickToggleError>(
            TrashScan { visited: (scan.visited + 1) as u64, bytes: saturating_sum(scan.bytes, length) },
        ),
{
    if scan.visited >= MAX_TRASH_ENTRIES {
        return Err(QuickToggleError::new(
            QuickToggleErrorKind::InvalidRequest,
            "the local Trash exceeds the bounded inspection limit of 100000 entries",
        ));
    }
    Ok(TrashScan { visited: scan.visited + 1, bytes: saturating_add(scan.bytes, length) })
}

/// The Empty Trash toggle's report from inspecting the local Trash: how many
/// top-level items it holds, or why it could not be inspected.
pub fn trash_capability(scan: Result<u64, QuickToggleError>) -> (report: CapabilityReport)
    ensures
        report.feature_id == toggle_feature_id(QuickToggleId::EmptyTrash),
        report@ == match scan {
            Ok(items) => toggle_report(
                QuickToggleId::EmptyTrash,
                StatusModel::Supported,
                "The current user's local Trash is accessible ("@ + decimal(items as nat) + " items)."@,
                Some("freedesktop.org XDG Trash"@),
                None,
                seq![("scope"@, "local-user-trash"@)],
            ),
            Err(error) => if error.kind == QuickToggleErrorKind::PermissionDenied {
                denied_report(
                    QuickToggleId::EmptyTrash,
                    Permission::FileDeletion,
                    "The current user's local Trash is not accessible."@,
                    "Restore user ownership and write access for the local XDG Trash directories."@,
                )
            } else {
                toggle_report(
                    QuickToggleId::EmptyTrash,
                    StatusModel::Unsupported(error.message@),
                    "The current user's local Trash cannot be inspected safely."@,
                    None,
                    Some(error.message@),
                    Seq::empty(),
                )
            },
        },
{
    let id = QuickToggleId::EmptyTrash;
    match scan {
        Ok(items) => {
            let mut summary = owned("The current user's local Trash is accessible (");
            push_decimal(&mut summary, items);
            summary.append(" items).");
            let report = supported(id, summary.as_str(), "freedesktop.org XDG Trash").with_evidence(
                CapabilityEvidence::new("scope", "local-user-trash"),
            );
            proof {
                assert(report@.evidence =~= seq![("scope"@, "local-user-trash"@)]);
            }
            report
        },
        Err(error) => {
            if error.kind == QuickToggleErrorKind::PermissionDenied {
                permission_denied(
                    id,
                    Permission::FileDeletion,
                    "The current user's local Trash is not accessible.",
                    "Restore user ownership and write access for the local XDG Trash directories.",
                )
            } else {
                let report = CapabilityReport::new(
                    id.feature_id(),
                    CapabilityStatus::Unsupported { reason: error.message.clone() },
                    "The current user's local Trash cannot be inspected safely.",
                ).with_remediation(error.message.as_str());
                proof {
                    assert(report@.alternatives_considered =~= Seq::<Seq<char>>::empty());
                    assert(report@.evidence =~= Seq::<(Seq<char>, Seq<char>)>::empty());
                }
                report
            }
        },
    }
}

/// The kind of a failed D-Bus call, judged by its error text: refusals are
/// permission problems, a missing service is unavailability, anything else
/// is a protocol failure.
pub open spec fn bus_error_kind(message: Seq<char>) -> QuickToggleErrorKind {
    if contains_seq(message, "AccessDenied"@) || contains_seq(message, "NotAuthorized"@)
        || contains_seq(message, "InteractiveAuthorizationRequired"@) {
        QuickToggleErrorKind::PermissionDenied
    } else if contains_seq(message, "ServiceUnknown"@) || contains_seq(message, "NameHasNoOwner"@) {
        QuickToggleErrorKind::Unavailable
    } else {
        QuickToggleErrorKind::Protocol
    }
}

/// Classifies a failed D-Bus call and prefixes its text with what was being done.
pub fn bus_error(context: &str, message: &str) -> (error: QuickToggleError)
    ensures
        error.kind == bus_error_kind(message@),
        error.message@ == context@ + ": "@ + message@,
{
    let kind = if contains_text(message, "AccessDenied") || contains_text(message, "NotAuthorized")
        || contains_text(message, "InteractiveAuthorizationRequired") {
        QuickToggleErrorKind::PermissionDenied
    } else if contains_text(message, "ServiceUnknown") || contains_text(message, "NameHasNoOwner") {
        QuickToggleErrorKind::Unavailable
    } else {
        QuickToggleErrorKind::Protocol
    };
    let mut text = owned(context);
    text.append(": ");
    text.append(message);
    QuickToggleError { kind, message: text }
}

/// The report of a toggle whose session service failed: a missing
/// dependency when the service is unavailable, otherwise unsupported for the
/// error's reason; the error's message is the remediation.
pub fn unavailable_capability(id: QuickToggleId, dependency: &str, error: QuickToggleError) -> (report: CapabilityReport)
    ensures
        report.feature_id == toggle_feature_id(id),
        report@ == unavailable_report(id, dependency@, error.kind, error.message@),
        error.kind == QuickToggleErrorKind::Unavailable ==> report.status@ == StatusModel::MissingDependency(dependency@),
        error.kind != QuickToggleErrorKind::Unavailable ==> report.status@ == StatusModel::Unsupported(error.message@),
        report.summary@ == toggle_label(id)@ + " is unavailable on this session."@,
        report.remediation matches Some(text) && text@ == error.message@,
{
    let status = if error.kind == QuickToggleErrorKind::Unavailable {
        CapabilityStatus::MissingDependency { name: owned(dependency) }
    } else {
        CapabilityStatus::Unsupported { reason: error.message.clone() }
    };
    let mut summary = owned(id.label());
    summary.append(" is unavailable on this session.");
    let report = CapabilityReport::new(id.feature_id(), status, summary.as_str()).with_remediation(error.message.as_str());
    proof {
        assert(report@.alternatives_considered =~= Seq::<Seq<char>>::empty());
        assert(report@.evidence =~= Seq::<(Seq<char>, Seq<char>)>::empty());
    }
    report
}

/// The report of a toggle whose D-Bus probe failed: a refusal asks for the
/// permission, anything else is reported as an unavailable session service.
pub fn bus_capability_error(id: QuickToggleId, summary: &str, message: &str, permission: Permission) -> (report: CapabilityReport)
    ensures
        report.feature_id == toggle_feature_id(id),
        report@ == if bus_error_kind(message@) == QuickToggleErrorKind::PermissionDenied {
            denied_report(id, permission, summary@, summary@ + ": "@ + message@)
        } else {
            unavailable_report(id, "D-Bus service"@, bus_error_kind(message@), summary@ + ": "@ + message@)
        },
        bus_error_kind(message@) == QuickToggleErrorKind::PermissionDenied ==> report.status@ == StatusModel::NeedsPermission(permission)
            && report.summary@ == summary@,
        bus_error_kind(message@) == QuickToggleErrorKind::Unavailable ==> report.status@ == StatusModel::MissingDependency("D-Bus service"@),
        bus_error_kind(message@) == QuickToggleErrorKind::Protocol ==> report.status@ == StatusModel::Unsupported(summary@ + ": "@ + message@),
        report.remediation matches Some(text) && text@ == summary@ + ": "@ + message@,
{
    let error = bus_error(summary, message);
    if error.kind == QuickToggleErrorKind::PermissionDenied {
        permission_denied(id, permission, summary, error.message.as_str())
    } else {
        unavailable_capability(id, "D-Bus service", error)
    }
}

/// The last non-empty segment of a D-Bus object path, or `unknown`.
pub open spec fn leaf_of(path: Seq<char>) -> Seq<char>
    decreases path.len(),
{
    if path.len() == 0 {
        "unknown"@
    } else if path.last() == '/' {
        leaf_of(path.drop_last())
    } else {
        trailing_segment(path)
    }
}

/// The characters after the last `/`.
pub open spec fn trailing_segment(path: Seq<char>) -> Seq<char>
    decreases path.len(),
{
    if path.len() == 0 || path.last() == '/' {
        seq![]
    } else {
        trailing_segment(path.drop_last()).push(path.last())
    }
}

/// The last non-empty segment of a D-Bus object path, or `unknown`.
pub fn object_leaf(path: &str) -> (leaf: String)
    ensures
        leaf@ == leaf_of(path@),
{
    let characters = chars_of(path);
    let mut end: usize = characters.len();
    assert(path@.subrange(0, path@.len() as int) =~= path@);
    while end > 0 && characters[end - 1] == '/'
        invariant
            characters@ == path@,
            end <= characters@.len(),
            leaf_of(path@) == leaf_of(path@.subrange(0, end as int)),
        decreases end,
    {
        let ghost prefix = path@.subrange(0, end as int);
        assert(prefix.drop_last() =~= path@.subrange(0, end - 1));
        end -= 1;
    }
    if end == 0 {
        return owned("unknown");
    }
    let mut start: usize = end;
    while start > 0 && characters[start - 1] != '/'
        invariant
            characters@ == path@,
            start <= end <= characters@.len(),
            trailing_segment(path@.subrange(0, end as int)) == trailing_segment(path@.subrange(0, start as int)) + path@.subrange(start as int, end as int),
        decreases start,
    {
        let ghost prefix = path@.subrange(0, start as int);
        assert(prefix.drop_last() =~= path@.subrange(0, start - 1));
        assert(path@.subrange(start - 1, end as int) =~= seq![path@[start - 1]] + path@.subrange(start as int, end as int));
        assert(trailing_segment(prefix) == trailing_segment(prefix.drop_last()).push(prefix.last()));
        assert(trailing_segment(prefix.drop_last()).push(prefix.last()) + path@.subrange(start as int, end as int)
            =~= trailing_segment(prefix.drop_last()) + path@.subrange(start - 1, end as int));
        start -= 1;
    }
    let mut leaf = String::new();
    let mut index: usize = start;
    while index < end
        invariant
            characters@ == path@,
            start <= index <= end <= characters@.len(),
            leaf@ == path@.subrange(start as int, index as int),
        decreases end - index,
    {
        push_char(&mut leaf, characters[index]);
        assert(path@.subrange(start as int, index + 1) =~= path@.subrange(start as int, index as int).push(path@[index as int]));
        index += 1;
    }
    proof {
        let prefix = path@.subrange(0, end as int);
        assert(prefix.last() != '/');
        assert(trailing_segment(path@.subrange(0, start as int)).len() == 0);
        assert(trailing_segment(prefix) =~= path@.subrange(start as int, end as int));
    }
    leaf
}

/// The confirmation that locking the session asks for.
pub fn screen_lock_confirmation_for(session_id: &str) -> (confirmation: MutationConfirmation)
    ensures
        confirmation.scope@ == "Lock the current graphical session ("@ + session_id@ + ") now."@,
        confirmation.token@ == "lock:"@ + session_id@,
{
    let mut scope = owned("Lock the current graphical session (");
    scope.append(session_id);
    scope.append(") now.");
    let mut token = owned("lock:");
    token.append(session_id);
    MutationConfirmation { scope, token }
}

/// Screen lock and empty-trash accept only their advertised action: an
/// activation without a target.
pub fn untargeted_action(mutation: &QuickToggleMutation, refusal: &str) -> (result: Result<(), QuickToggleError>)
    ensures
        (*mutation matches QuickToggleMutation::Activate { target: None }) ==> result is Ok,
        !(*mutation matches QuickToggleMutation::Activate { target: None }) ==> (result matches Err(error)
            && error.kind == QuickToggleErrorKind::InvalidRequest && error.message@ == refusal@),
{
    match mutation {
        QuickToggleMutation::Activate { target: None } => Ok(()),
        _ => Err(QuickToggleError::new(QuickToggleErrorKind::InvalidRequest, refusal)),
    }
}

/// The lower-case hexadecimal digit for a value below sixteen.
pub open spec fn hex_char(value: nat) -> char {
    if value < 10 {
        crate::text::digit_char(value)
    } else if value == 10 {
        'a'
    } else if value == 11 {
        'b'
    } else if value == 12 {
        'c'
    } else if value == 13 {
        'd'
    } else if value == 14 {
        'e'
    } else {
        'f'
    }
}

/// The `count` lowest hexadecimal digits of `value`, zero-padded.
pub open spec fn hex_digits(value: nat, count: nat) -> Seq<char>
    decreases count,
{
    if count == 0 {
        seq![]
    } else {
        hex_digits(value / 16, (count - 1) as nat).push(hex_char(value % 16))
    }
}

fn hex_digit(value: u64) -> (character: char)
    requires
        value < 16,
    ensures
        character == hex_char(value as nat),
{
    if value < 10 {
        if value == 0 { '0' } else if value == 1 { '1' } else if value == 2 { '2' } else if value == 3 { '3' } else if value == 4 { '4' } else if value == 5 { '5' } else if value == 6 { '6' } else if value == 7 { '7' } else if value == 8 { '8' } else { '9' }
    } else if value == 10 {
        'a'
    } else if value == 11 {
        'b'
    } else if value == 12 {
        'c'
    } else if value == 13 {
        'd'
    } else if value == 14 {
        'e'
    } else {
        'f'
    }
}

/// Appends the `count` lowest hexadecimal digits of `value`, zero-padded.
pub fn push_hex(text: &mut String, value: u64, count: u64)
    ensures
        final(text)@ == old(text)@ + hex_digits(value as nat, count as nat),
    decreases count,
{
    if count == 0 {
        assert(old(text)@ + hex_digits(value as nat, 0) =~= old(text)@);
    } else {
        push_hex(text, value / 16, count - 1);
        push_char(text, hex_digit(value % 16));
        assert(old(text)@ + hex_digits(value as nat / 16, (count - 1) as nat) + seq![hex_char(value as nat % 16)]
            =~= old(text)@ + hex_digits(value as nat, count as nat));
    }
}

/// The confirmation that emptying the local Trash asks for; its token names
/// the exact item count, size and content fingerprint.
pub fn trash_scope_confirmation(items: u64, bytes: u64, fingerprint: u64) -> (confirmation: MutationConfirmation)
    ensures
        confirmation.scope@ == "Permanently delete "@ + decimal(items as nat) + " top-level items ("@ + decimal(bytes as nat)
            + " bytes) from this user's local Trash. Remote Trash locations are excluded."@,
        confirmation.token@ == "trash:"@ + decimal(items as nat) + ":"@ + decimal(bytes as nat) + ":"@ + hex_digits(fingerprint as nat, 16),
{
    let mut scope = owned("Permanently delete ");
    push_decimal(&mut scope, items);
    scope.append(" top-level items (");
    push_decimal(&mut scope, bytes);
    scope.append(" bytes) from this user's local Trash. Remote Trash locations are excluded.");
    let mut token = owned("trash:");
    push_decimal(&mut token, items);
    token.append(":");
    push_decimal(&mut token, bytes);
    token.append(":");
    push_hex(&mut token, fingerprint, 16);
    MutationConfirmation { scope, token }
}

/// What the Trash toggle shows for a scanned Trash: one action while it
/// holds items, none when it is empty.
pub fn trash_observation(items: u64, bytes: u64, fingerprint: u64) -> (observation: QuickToggleObservation)
    ensures
        items == 0 ==> observation.control@ == crate::quick_toggles::ControlModel::Actions(seq![])
            && observation.detail@ == "The current user's local Trash is empty."@,
        items > 0 ==> (observation.control matches QuickToggleControl::Actions(actions) && actions@.len() == 1
            && actions@[0].target is None && actions@[0].label@ == "Empty local Trash"@)
            && observation.detail@ == "Local Trash contains "@ + decimal(items as nat) + " top-level items ("@ + decimal(bytes as nat)
            + " bytes); remote and other users' Trash locations are excluded."@,
{
    if items == 0 {
        let actions: Vec<ToggleAction> = Vec::new();
        let observation = QuickToggleObservation {
            control: QuickToggleControl::Actions(actions),
            detail: owned("The current user's local Trash is empty."),
        };
        assert(crate::quick_toggles::actions_view(actions@) =~= Seq::<crate::quick_toggles::ActionModel>::empty());
        observation
    } else {
        let action = ToggleAction {
            target: None,
            label: owned("Empty local Trash"),
            confirmation: trash_scope_confirmation(items, bytes, fingerprint),
        };
        let mut detail = owned("Local Trash contains ");
        push_decimal(&mut detail, items);
        detail.append(" top-level items (");
        push_decimal(&mut detail, bytes);
        detail.append(" bytes); remote and other users' Trash locations are excluded.");
        QuickToggleObservation { control: QuickToggleControl::Actions(vec![action]), detail }
    }
}

/// The quick-toggle error a notification failure becomes.
pub fn notification_error(error: NotificationError) -> (converted: QuickToggleError)
    ensures
        converted.message == error.message,
        converted.kind == match error.kind {
            NotificationErrorKind::Unavailable => QuickToggleErrorKind::Unavailable,
            NotificationErrorKind::Protocol => QuickToggleErrorKind::Protocol,
            NotificationErrorKind::PermissionDenied => QuickToggleErrorKind::PermissionDenied,
        },
{
    let kind = match error.kind() {
        NotificationErrorKind::Unavailable => QuickToggleErrorKind::Unavailable,
        NotificationErrorKind::Protocol => QuickToggleErrorKind::Protocol,
        NotificationErrorKind::PermissionDenied => QuickToggleErrorKind::PermissionDenied,
    };
    QuickToggleError { kind, message: error.message }
}

/// The battery-alerts report when no battery can be used: none exposed, or
/// the power supplies unreadable; nothing while a battery is present.
pub fn battery_absence_report(batteries: &Result<Vec<crate::quick_toggles::BatteryReading>, QuickToggleError>) -> (report: Option<CapabilityReport>)
    ensures
        match *batteries {
            Ok(found) => if found@.len() > 0 {
                report is None
            } else {
                report matches Some(absent) && absent.feature_id == toggle_feature_id(QuickToggleId::BatteryAlerts)
                    && absent.status@ == StatusModel::Unsupported("no system battery is exposed by sysfs"@)
                    && absent.summary@ == "Battery alerts are not applicable on this system."@
            },
            Err(error) => report matches Some(failed) && failed.status@ == StatusModel::Unsupported(error.message@)
                && failed.summary@ == "Battery state cannot be inspected."@
                && (failed.remediation matches Some(text) && text@ == error.message@),
        },
{
    let id = QuickToggleId::BatteryAlerts;
    match batteries {
        Ok(found) => {
            if found.len() > 0 {
                None
            } else {
                Some(CapabilityReport::new(
                    id.feature_id(),
                    CapabilityStatus::Unsupported { reason: owned("no system battery is exposed by sysfs") },
                    "Battery alerts are not applicable on this system.",
                ).with_remediation(
                    "Connect a supported battery exposed through /sys/class/power_supply, or leave battery alerts disabled on batteryless systems.",
                ))
            }
        },
        Err(error) => Some(CapabilityReport::new(
            id.feature_id(),
            CapabilityStatus::Unsupported { reason: error.message.clone() },
            "Battery state cannot be inspected.",
        ).with_remediation(error.message.as_str())),
    }
}

/// The battery-alerts report once batteries are present, from whether the
/// notification service answered.
pub fn battery_notification_report(battery_count: usize, notifications: Result<(), QuickToggleError>) -> (report: CapabilityReport)
    ensures
        report.feature_id == toggle_feature_id(QuickToggleId::BatteryAlerts),
        report@ == match notifications {
            Ok(()) => toggle_report(
                QuickToggleId::BatteryAlerts,
                StatusModel::Supported,
                "Battery state is available and the desktop notification service is reachable."@,
                Some("sysfs power_supply + org.freedesktop.Notifications"@),
                None,
                seq![("battery-count"@, decimal(battery_count as nat))],
            ),
            Err(error) => if error.kind == QuickToggleErrorKind::PermissionDenied {
                denied_report(
                    QuickToggleId::BatteryAlerts,
                    Permission::Notifications,
                    "The notification service rejected access."@,
                    "Allow notifications for Kestrel in desktop notification settings."@,
                )
            } else {
                toggle_report(
                    QuickToggleId::BatteryAlerts,
                    StatusModel::MissingDependency("org.freedesktop.Notifications"@),
                    "Battery state is available, but no notification service is reachable."@,
                    None,
                    Some(error.message@),
                    Seq::empty(),
                )
            },
        },
        notifications is Ok ==> report.status@ == StatusModel::Supported && report.evidence@.len() == 1
            && report.evidence@[0]@ == ("battery-count"@, decimal(battery_count as nat)),
        notifications matches Err(error) && error.kind == QuickToggleErrorKind::PermissionDenied ==> report.status@
            == StatusModel::NeedsPermission(Permission::Notifications),
        match notifications {
            Err(error) => error.kind != QuickToggleErrorKind::PermissionDenied ==> report.status@
                == StatusModel::MissingDependency("org.freedesktop.Notifications"@)
                && (report.remediation matches Some(text) && text@ == error.message@),
            Ok(()) => true,
        },
{
    let id = QuickToggleId::BatteryAlerts;
    match notifications {
        Ok(()) => {
            let count = decimal_text(battery_count as u64);
            let report = supported(
                id,
                "Battery state is available and the desktop notification service is reachable.",
                "sysfs power_supply + org.freedesktop.Notifications",
            ).with_evidence(CapabilityEvidence::new("battery-count", count.as_str()));
            proof {
                assert(report@.evidence =~= seq![("battery-count"@, count@)]);
            }
            report
        },
        Err(error) => {
            if error.kind == QuickToggleErrorKind::PermissionDenied {
                permission_denied(
                    id,
                    Permission::Notifications,
                    "The notification service rejected access.",
                    "Allow notifications for Kestrel in desktop notification settings.",
                )
            } else {
                let report = CapabilityReport::new(
                    id.feature_id(),
                    CapabilityStatus::MissingDependency { name: owned("org.freedesktop.Notifications") },
                    "Battery state is available, but no notification service is reachable.",
                ).with_remediation(error.message.as_str());
                proof {
                    assert(report@.alternatives_considered =~= Seq::<Seq<char>>::empty());
                    assert(report@.evidence =~= Seq::<(Seq<char>, Seq<char>)>::empty());
                }
                report
            }
        },
    }
}

/// What the battery-alerts toggle shows about the first battery.
pub fn battery_alerts_detail(enabled: bool, first: Option<&crate::quick_toggles::BatteryReading>) -> (detail: String)
    ensures
        match first {
            None => detail@ == "No system battery is available."@,
            Some(battery) => detail@ == "Alerts are "@ + (if enabled { "enabled"@ } else { "disabled"@ }) + "; "@ + battery.name@
                + " is at "@ + (match battery.capacity {
                    Some(capacity) => decimal(capacity as nat) + "%"@,
                    None => "unknown charge"@,
                }) + " ("@ + (match battery.status {
                    Some(status) => status@,
                    None => "unknown state"@,
                }) + ")."@,
        },
{
    match first {
        None => owned("No system battery is available."),
        Some(battery) => {
            let mut detail = owned("Alerts are ");
            detail.append(if enabled { "enabled" } else { "disabled" });
            detail.append("; ");
            detail.append(battery.name.as_str());
            detail.append(" is at ");
            match battery.capacity {
                Some(capacity) => {
                    push_decimal(&mut detail, capacity as u64);
                    detail.append("%");
                },
                None => {
                    detail.append("unknown charge");
                },
            }
            detail.append(" (");
            match &battery.status {
                Some(status) => {
                    detail.append(status.as_str());
                },
                None => {
                    detail.append("unknown state");
                },
            }
            detail.append(").");
            detail
        },
    }
}

} // verus!
