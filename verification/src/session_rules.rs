//! What the session services' answers mean for each quick toggle: logind,
//! BlueZ, NetworkManager, UDisks2 and the desktop settings.

use vstd::prelude::*;

use crate::capability::{CapabilityEvidence, CapabilityReport, CapabilityStatus, Permission, ReportModel, StatusModel};
use crate::proc_monitor::utf8_lossy;
use crate::quick_toggles::{
    MutationConfirmation, QuickToggleControl, QuickToggleError, QuickToggleErrorKind, QuickToggleId,
    QuickToggleMutation, QuickToggleObservation, ToggleAction, toggle_feature_id, toggle_label,
};
use crate::sorting::{SortKey, sort_by_key, sorted_by};
use crate::text::{decimal, decimal_text, owned, push_decimal, str_equal};
use crate::toggle_rules::{
    denied_report, invalid_switch, object_leaf, permission_denied, radio_off, radio_off_confirmation, supported,
    supported_report, toggle_report, unavailable_capability, unavailable_report,
};

verus! {

/// The keep-awake toggle's report from whether logind's inhibitor API answered.
pub fn keep_awake_capability(probe: Result<(), QuickToggleError>) -> (report: CapabilityReport)
    ensures
        report.feature_id == toggle_feature_id(QuickToggleId::KeepAwake),
        report@ == match probe {
            Ok(_) => supported_report(
                QuickToggleId::KeepAwake,
                "The user session can hold a scoped idle and sleep inhibitor."@,
                "systemd-logind Inhibit"@,
            ),
            Err(error) => if error.kind == QuickToggleErrorKind::PermissionDenied {
                denied_report(
                    QuickToggleId::KeepAwake,
                    Permission::SessionControl,
                    "logind is reachable but its inhibitor API is unavailable"@,
                    error.message@,
                )
            } else {
                unavailable_report(QuickToggleId::KeepAwake, "systemd-logind"@, error.kind, error.message@)
            },
        },
        probe is Ok ==> report.status@ == StatusModel::Supported
            && report.summary@ == "The user session can hold a scoped idle and sleep inhibitor."@,
        probe matches Err(error) && error.kind == QuickToggleErrorKind::PermissionDenied ==> report.status@
            == StatusModel::NeedsPermission(Permission::SessionControl),
        probe matches Err(error) && error.kind == QuickToggleErrorKind::Unavailable ==> report.status@
            == StatusModel::MissingDependency("systemd-logind"@),
{
    let id = QuickToggleId::KeepAwake;
    match probe {
        Ok(()) => supported(id, "The user session can hold a scoped idle and sleep inhibitor.", "systemd-logind Inhibit"),
        Err(error) => {
            if error.kind == QuickToggleErrorKind::PermissionDenied {
                permission_denied(
                    id,
                    Permission::SessionControl,
                    "logind is reachable but its inhibitor API is unavailable",
                    error.message.as_str(),
                )
            } else {
                unavailable_capability(id, "systemd-logind", error)
            }
        },
    }
}

/// How the keep-awake toggle is observed: on while Kestrel holds an inhibitor.
pub fn keep_awake_observation(held: bool) -> (observation: QuickToggleObservation)
    ensures
        observation.control@ == crate::quick_toggles::ControlModel::Switch(held, None),
        observation.detail@ == if held {
            "Kestrel owns an active idle and sleep inhibitor."@
        } else {
            "Kestrel does not currently inhibit idle or sleep."@
        },
{
    QuickToggleObservation {
        control: QuickToggleControl::Switch { enabled: held, confirmation: None },
        detail: owned(if held {
            "Kestrel owns an active idle and sleep inhibitor."
        } else {
            "Kestrel does not currently inhibit idle or sleep."
        }),
    }
}

/// The on/off value a switch request carries, or the switch's refusal.
pub fn switch_request(label: &str, mutation: &QuickToggleMutation) -> (result: Result<bool, QuickToggleError>)
    ensures
        match *mutation {
            QuickToggleMutation::SetEnabled(enabled) => result == Ok::<bool, QuickToggleError>(enabled),
            _ => result matches Err(error) && error.kind == QuickToggleErrorKind::InvalidRequest
                && error.message@ == label@ + " accepts only an enabled/disabled value"@,
        },
{
    match mutation {
        QuickToggleMutation::SetEnabled(enabled) => Ok(*enabled),
        _ => Err(invalid_switch(label)),
    }
}

/// The Bluetooth toggle's report from the adapter discovery.
pub fn bluetooth_capability(adapter: Result<String, QuickToggleError>) -> (report: CapabilityReport)
    ensures
        report.feature_id == toggle_feature_id(QuickToggleId::Bluetooth),
        report@ == match adapter {
            Ok(path) => toggle_report(
                QuickToggleId::Bluetooth,
                StatusModel::Supported,
                "A BlueZ adapter exposes its current power state."@,
                Some("BlueZ Adapter1 D-Bus"@),
                None,
                seq![("adapter"@, crate::toggle_rules::leaf_of(path@))],
            ),
            Err(error) => if error.kind == QuickToggleErrorKind::PermissionDenied {
                denied_report(
                    QuickToggleId::Bluetooth,
                    Permission::NetworkControl,
                    "BlueZ denied access to the Bluetooth adapter."@,
                    "Grant the current graphical user permission to control the BlueZ adapter."@,
                )
            } else {
                unavailable_report(QuickToggleId::Bluetooth, "BlueZ"@, error.kind, error.message@)
            },
        },
        adapter matches Ok(path) ==> report.status@ == StatusModel::Supported && report.evidence@.len() == 1
            && report.evidence@[0].key@ == "adapter"@ && report.evidence@[0].value@ == crate::toggle_rules::leaf_of(path@),
        adapter matches Err(error) && error.kind == QuickToggleErrorKind::PermissionDenied ==> report.status@
            == StatusModel::NeedsPermission(Permission::NetworkControl),
        adapter matches Err(error) && error.kind == QuickToggleErrorKind::Unavailable ==> report.status@
            == StatusModel::MissingDependency("BlueZ"@),
{
    let id = QuickToggleId::Bluetooth;
    match adapter {
        Ok(path) => {
            let leaf = object_leaf(path.as_str());
            let report = supported(id, "A BlueZ adapter exposes its current power state.", "BlueZ Adapter1 D-Bus")
                .with_evidence(CapabilityEvidence::new("adapter", leaf.as_str()));
            proof {
                assert(report@.evidence =~= seq![("adapter"@, leaf@)]);
            }
            report
        },
        Err(error) => {
            if error.kind == QuickToggleErrorKind::PermissionDenied {
                permission_denied(
                    id,
                    Permission::NetworkControl,
                    "BlueZ denied access to the Bluetooth adapter.",
                    "Grant the current graphical user permission to control the BlueZ adapter.",
                )
            } else {
                unavailable_capability(id, "BlueZ", error)
            }
        },
    }
}

/// How a Bluetooth adapter is observed: turning a powered radio off asks
/// for confirmation.
pub fn bluetooth_observation(path: &str, powered: bool) -> (observation: QuickToggleObservation)
    ensures
        observation.control@ == crate::quick_toggles::ControlModel::Switch(
            powered,
            if powered { Some(radio_off("Bluetooth"@)) } else { None },
        ),
        observation.detail@ == "Bluetooth adapter "@ + crate::toggle_rules::leaf_of(path@) + " is "@
            + (if powered { "powered"@ } else { "off"@ }) + "."@,
{
    let leaf = object_leaf(path);
    let mut detail = owned("Bluetooth adapter ");
    detail.append(leaf.as_str());
    detail.append(" is ");
    detail.append(if powered { "powered" } else { "off" });
    detail.append(".");
    let confirmation = if powered { Some(radio_off_confirmation("Bluetooth")) } else { None };
    QuickToggleObservation { control: QuickToggleControl::Switch { enabled: powered, confirmation }, detail }
}

/// The Wi-Fi toggle's report from NetworkManager's radio state.
pub fn wifi_capability(state: Result<(bool, bool), QuickToggleError>) -> (report: CapabilityReport)
    ensures
        report.feature_id == toggle_feature_id(QuickToggleId::Wifi),
        report@ == match state {
            Ok((_, hardware)) => if hardware {
                supported_report(QuickToggleId::Wifi, "NetworkManager exposes a controllable Wi-Fi radio."@, "NetworkManager D-Bus"@)
            } else {
                toggle_report(
                    QuickToggleId::Wifi,
                    StatusModel::Unsupported("NetworkManager reports that no Wi-Fi hardware is enabled"@),
                    "No controllable Wi-Fi radio is available."@,
                    None,
                    None,
                    Seq::empty(),
                )
            },
            Err(error) => if error.kind == QuickToggleErrorKind::PermissionDenied {
                denied_report(
                    QuickToggleId::Wifi,
                    Permission::NetworkControl,
                    "NetworkManager denied access to Wi-Fi state."@,
                    "Grant the current graphical user permission to control NetworkManager Wi-Fi."@,
                )
            } else {
                unavailable_report(QuickToggleId::Wifi, "NetworkManager"@, error.kind, error.message@)
            },
        },
        state matches Ok((_, hardware)) && hardware ==> report.status@ == StatusModel::Supported,
        state matches Ok((_, hardware)) && !hardware ==> report.status@
            == StatusModel::Unsupported("NetworkManager reports that no Wi-Fi hardware is enabled"@),
        state matches Err(error) && error.kind == QuickToggleErrorKind::PermissionDenied ==> report.status@
            == StatusModel::NeedsPermission(Permission::NetworkControl),
        state matches Err(error) && error.kind == QuickToggleErrorKind::Unavailable ==> report.status@
            == StatusModel::MissingDependency("NetworkManager"@),
{
    let id = QuickToggleId::Wifi;
    match state {
        Ok((_, hardware)) => {
            if hardware {
                supported(id, "NetworkManager exposes a controllable Wi-Fi radio.", "NetworkManager D-Bus")
            } else {
                let report = CapabilityReport::new(
                    id.feature_id(),
                    CapabilityStatus::Unsupported { reason: owned("NetworkManager reports that no Wi-Fi hardware is enabled") },
                    "No controllable Wi-Fi radio is available.",
                );
                proof {
                    assert(report@.alternatives_considered =~= Seq::<Seq<char>>::empty());
                    assert(report@.evidence =~= Seq::<(Seq<char>, Seq<char>)>::empty());
                }
                report
            }
        },
        Err(error) => {
            if error.kind == QuickToggleErrorKind::PermissionDenied {
                permission_denied(
                    id,
                    Permission::NetworkControl,
                    "NetworkManager denied access to Wi-Fi state.",
                    "Grant the current graphical user permission to control NetworkManager Wi-Fi.",
                )
            } else {
                unavailable_capability(id, "NetworkManager", error)
            }
        },
    }
}

/// How the Wi-Fi radio is observed.
pub fn wifi_observation(enabled: bool, hardware_enabled: bool) -> (observation: QuickToggleObservation)
    ensures
        observation.control@ == crate::quick_toggles::ControlModel::Switch(
            enabled,
            if enabled { Some(radio_off("Wi-Fi"@)) } else { None },
        ),
        observation.detail@ == if hardware_enabled {
            "NetworkManager reports Wi-Fi is "@ + (if enabled { "enabled"@ } else { "disabled"@ }) + "."@
        } else {
            "NetworkManager reports that Wi-Fi hardware is disabled."@
        },
{
    let detail = if hardware_enabled {
        let mut text = owned("NetworkManager reports Wi-Fi is ");
        text.append(if enabled { "enabled" } else { "disabled" });
        text.append(".");
        text
    } else {
        owned("NetworkManager reports that Wi-Fi hardware is disabled.")
    };
    let confirmation = if enabled { Some(radio_off_confirmation("Wi-Fi")) } else { None };
    QuickToggleObservation { control: QuickToggleControl::Switch { enabled, confirmation }, detail }
}

/// Checks a Wi-Fi request: only on or off, and never on while the hardware
/// radio is disabled.
pub fn wifi_request(mutation: &QuickToggleMutation, hardware_enabled: bool) -> (result: Result<bool, QuickToggleError>)
    ensures
        match *mutation {
            QuickToggleMutation::SetEnabled(enabled) => if enabled && !hardware_enabled {
                result matches Err(error) && error.kind == QuickToggleErrorKind::Unavailable
                    && error.message@ == "NetworkManager reports that the Wi-Fi hardware radio is disabled"@
            } else {
                result == Ok::<bool, QuickToggleError>(enabled)
            },
            _ => result matches Err(error) && error.kind == QuickToggleErrorKind::InvalidRequest,
        },
{
    let enabled = switch_request("Wi-Fi", mutation)?;
    if enabled && !hardware_enabled {
        return Err(QuickToggleError::new(
            QuickToggleErrorKind::Unavailable,
            "NetworkManager reports that the Wi-Fi hardware radio is disabled",
        ));
    }
    Ok(enabled)
}

/// The screen-lock toggle's report from locating the current session.
pub fn screen_lock_capability(session: Result<String, QuickToggleError>) -> (report: CapabilityReport)
    ensures
        report.feature_id == toggle_feature_id(QuickToggleId::ScreenLock),
        report@ == match session {
            Ok(id) => toggle_report(
                QuickToggleId::ScreenLock,
                StatusModel::Supported,
                "The current logind session can be locked."@,
                Some("systemd-logind LockSession"@),
                None,
                seq![("session"@, id@)],
            ),
            Err(error) => if error.kind == QuickToggleErrorKind::PermissionDenied {
                denied_report(
                    QuickToggleId::ScreenLock,
                    Permission::SessionControl,
                    "logind denied access to the current session."@,
                    "Use the desktop's lock action or restore normal logind session permissions."@,
                )
            } else {
                unavailable_report(QuickToggleId::ScreenLock, "systemd-logind"@, error.kind, error.message@)
            },
        },
        session matches Ok(id) ==> report.status@ == StatusModel::Supported && report.evidence@.len() == 1
            && report.evidence@[0]@ == ("session"@, id@),
        session matches Err(error) && error.kind == QuickToggleErrorKind::PermissionDenied ==> report.status@
            == StatusModel::NeedsPermission(Permission::SessionControl),
        session matches Err(error) && error.kind == QuickToggleErrorKind::Unavailable ==> report.status@
            == StatusModel::MissingDependency("systemd-logind"@),
{
    let id = QuickToggleId::ScreenLock;
    match session {
        Ok(session_id) => {
            let report = supported(id, "The current logind session can be locked.", "systemd-logind LockSession")
                .with_evidence(CapabilityEvidence::new("session", session_id.as_str()));
            proof {
                assert(report@.evidence =~= seq![("session"@, session_id@)]);
            }
            report
        },
        Err(error) => {
            if error.kind == QuickToggleErrorKind::PermissionDenied {
                permission_denied(
                    id,
                    Permission::SessionControl,
                    "logind denied access to the current session.",
                    "Use the desktop's lock action or restore normal logind session permissions.",
                )
            } else {
                unavailable_capability(id, "systemd-logind", error)
            }
        },
    }
}

/// How the screen-lock toggle is observed: one action that locks this session.
pub fn screen_lock_observation(session_id: &str) -> (observation: QuickToggleObservation)
    ensures
        observation.control matches QuickToggleControl::Actions(actions) && actions@.len() == 1
            && actions@[0].target is None && actions@[0].label@ == "Lock this session"@
            && actions@[0].confirmation.token@ == "lock:"@ + session_id@,
        observation.detail@ == "Lock the current graphical session ("@ + session_id@ + ")."@,
{
    let confirmation = crate::toggle_rules::screen_lock_confirmation_for(session_id);
    let mut detail = owned("Lock the current graphical session (");
    detail.append(session_id);
    detail.append(").");
    let action = ToggleAction { target: None, label: owned("Lock this session"), confirmation };
    QuickToggleObservation { control: QuickToggleControl::Actions(vec![action]), detail }
}

/// What UDisks2 says of a drive object.
#[derive(Debug, Clone, Copy)]
pub struct DriveFacts {
    pub removable: Option<bool>,
    pub ejectable: Option<bool>,
}

/// What UDisks2 says of a block device: a property that could not be read
/// is absent; one that could not be decoded carries the decoding error.
#[derive(Debug)]
pub struct BlockFacts {
    pub hint_system: Option<bool>,
    pub drive: Result<String, String>,
    pub id_label: Option<String>,
    pub device: Option<Vec<u8>>,
}

/// One UDisks2 object and the interfaces it exposes.
#[derive(Debug)]
pub struct UdisksObject {
    pub path: String,
    pub drive: Option<DriveFacts>,
    pub block: Option<BlockFacts>,
    pub mount_points: Option<Result<Vec<Vec<u8>>, String>>,
}

/// A mounted filesystem that may be unmounted and its drive ejected.
#[derive(Debug, Clone)]
pub struct EjectableDrive {
    pub target: String,
    pub block_path: String,
    pub drive_path: String,
    pub label: String,
    pub mount_points: Vec<Vec<u8>>,
}

impl SortKey for EjectableDrive {
    open spec fn sort_key(&self) -> Seq<char> {
        self.label@
    }

    fn key_text(&self) -> (key: &str) {
        self.label.as_str()
    }
}

/// The text of a NUL-terminated byte string.
pub open spec fn c_text(bytes: Seq<u8>) -> Seq<char> {
    utf8_lossy(bytes.take(nul_position(bytes)))
}

/// The position of the first NUL byte, or the length.
pub open spec fn nul_position(bytes: Seq<u8>) -> int
    decreases bytes.len(),
{
    if bytes.len() == 0 {
        0
    } else if nul_position(bytes.drop_last()) < bytes.len() - 1 {
        nul_position(bytes.drop_last())
    } else if bytes.last() == 0 {
        bytes.len() - 1
    } else {
        bytes.len() as int
    }
}

proof fn lemma_nul_position(bytes: Seq<u8>)
    ensures
        0 <= nul_position(bytes) <= bytes.len(),
        forall|j: int| 0 <= j < nul_position(bytes) ==> bytes[j] != 0,
        nul_position(bytes) < bytes.len() ==> bytes[nul_position(bytes)] == 0,
    decreases bytes.len(),
{
    if bytes.len() > 0 {
        lemma_nul_position(bytes.drop_last());
        assert forall|j: int| 0 <= j < bytes.len() - 1 implies bytes.drop_last()[j] == bytes[j] by {}
    }
}

proof fn lemma_nul_position_at(bytes: Seq<u8>, index: int)
    requires
        0 <= index <= bytes.len(),
        forall|j: int| 0 <= j < index ==> bytes[j] != 0,
        index < bytes.len() ==> bytes[index] == 0,
    ensures
        nul_position(bytes) == index,
    decreases bytes.len(),
{
    lemma_nul_position(bytes);
    if bytes.len() > 0 {
        lemma_nul_position(bytes.drop_last());
        if index < bytes.len() - 1 {
            lemma_nul_position_at(bytes.drop_last(), index);
        } else {
            assert forall|j: int| 0 <= j < bytes.len() - 1 implies bytes.drop_last()[j] != 0 by {}
            if nul_position(bytes.drop_last()) < bytes.len() - 1 {
                assert(bytes[nul_position(bytes.drop_last())] == 0);
            }
        }
    }
}

/// The text of a NUL-terminated byte string, as a device path is stored.
pub fn c_string(bytes: &[u8]) -> (text: String)
    ensures
        text@ == c_text(bytes@),
{
    let mut end: usize = 0;
    while end < bytes.len() && bytes[end] != 0
        invariant
            end <= bytes@.len(),
            forall|j: int| 0 <= j < end ==> bytes@[j] != 0,
        decreases bytes@.len() - end,
    {
        end += 1;
    }
    proof {
        lemma_nul_position_at(bytes@, end as int);
        assert(bytes@.take(end as int) =~= bytes@.subrange(0, end as int));
    }
    crate::proc_monitor::text_from_bytes(&bytes[0..end])
}

/// An optional flag, or a default where it is absent.
pub open spec fn flag_or(flag: Option<bool>, default: bool) -> bool {
    match flag {
        Some(value) => value,
        None => default,
    }
}

/// Whether the drive object at a path is removable and ejectable, as the last
/// drive object with that path says; none if no drive object has it.
pub open spec fn drive_flags_at(objects: Seq<UdisksObject>, path: Seq<char>) -> Option<(bool, bool)>
    decreases objects.len(),
{
    if objects.len() == 0 {
        None
    } else {
        let last = objects.last();
        match last.drive {
            Some(facts) => if last.path@ == path {
                Some((flag_or(facts.removable, false), flag_or(facts.ejectable, false)))
            } else {
                drive_flags_at(objects.drop_last(), path)
            },
            None => drive_flags_at(objects.drop_last(), path),
        }
    }
}

/// The name a filesystem is shown by: its label, else its device path, else
/// the last segment of its object path.
pub open spec fn drive_label_of(object: UdisksObject, block: BlockFacts) -> Seq<char> {
    let named = match block.id_label {
        Some(label) => label@,
        None => Seq::<char>::empty(),
    };
    let device = match block.device {
        Some(bytes) => c_text(bytes@),
        None => Seq::<char>::empty(),
    };
    if named.len() > 0 {
        named
    } else if device.len() > 0 {
        device
    } else {
        crate::toggle_rules::leaf_of(object.path@)
    }
}

/// What a listed drive holds: its target, block path, drive path, label and
/// mount points.
pub type DriveRecord = (Seq<char>, Seq<char>, Seq<char>, Seq<char>, Seq<Seq<u8>>);

/// The record of a listed drive.
pub open spec fn drive_record() -> spec_fn(EjectableDrive) -> DriveRecord {
    |drive: EjectableDrive| (drive.target@, drive.block_path@, drive.drive_path@, drive.label@, drive.mount_points.deep_view())
}

/// The label a drive record is ordered by.
pub open spec fn record_label() -> spec_fn(DriveRecord) -> Seq<char> {
    |record: DriveRecord| record.3
}

/// What one object contributes to the listing: nothing, a drive, or the
/// decoding error that ends the listing.
pub open spec fn drive_candidate(objects: Seq<UdisksObject>, object: UdisksObject) -> Option<Result<DriveRecord, Seq<char>>> {
    match object.block {
        None => None,
        Some(block) => match object.mount_points {
            None => None,
            Some(points) => if flag_or(block.hint_system, true) {
                None
            } else {
                match block.drive {
                    Err(message) => Some(Err(message@)),
                    Ok(drive) => if drive_flags_at(objects, drive@) != Some((true, true)) {
                        None
                    } else {
                        match points {
                            Err(message) => Some(Err(message@)),
                            Ok(list) => if list@.len() == 0 {
                                None
                            } else {
                                Some(Ok((object.path@ + "|"@ + drive@, object.path@, drive@, drive_label_of(object, block), list.deep_view())))
                            },
                        }
                    },
                }
            },
        },
    }
}

/// The drives among the first `count` objects in the order found, or the
/// first decoding error.
pub open spec fn drives_found(objects: Seq<UdisksObject>, count: int) -> Result<Seq<DriveRecord>, Seq<char>>
    decreases count,
{
    if count <= 0 {
        Ok(Seq::empty())
    } else {
        match drives_found(objects, count - 1) {
            Err(message) => Err(message),
            Ok(found) => match drive_candidate(objects, objects[count - 1]) {
                None => Ok(found),
                Some(Ok(record)) => Ok(found.push(record)),
                Some(Err(message)) => Err(message),
            },
        }
    }
}

proof fn lemma_drives_found_error(objects: Seq<UdisksObject>, count: int, later: int)
    requires
        count <= later,
        drives_found(objects, count) is Err,
    ensures
        drives_found(objects, later) == drives_found(objects, count),
    decreases later - count,
{
    if count < later {
        lemma_drives_found_error(objects, count, later - 1);
    }
}

fn drive_flags(objects: &[UdisksObject], path: &str) -> (flags: Option<(bool, bool)>)
    ensures
        flags == drive_flags_at(objects@, path@),
{
    let mut found: Option<(bool, bool)> = None;
    let mut index: usize = 0;
    while index < objects.len()
        invariant
            index <= objects@.len(),
            found == drive_flags_at(objects@.take(index as int), path@),
        decreases objects@.len() - index,
    {
        proof {
            assert(objects@.take(index + 1).drop_last() =~= objects@.take(index as int));
            assert(objects@.take(index + 1).last() == objects@[index as int]);
        }
        match &objects[index].drive {
            Some(facts) => {
                if str_equal(objects[index].path.as_str(), path) {
                    found = Some((
                        match facts.removable { Some(value) => value, None => false },
                        match facts.ejectable { Some(value) => value, None => false },
                    ));
                }
            },
            None => {},
        }
        index += 1;
    }
    proof {
        assert(objects@.take(objects@.len() as int) =~= objects@);
    }
    found
}

fn drive_label(object: &UdisksObject, block: &BlockFacts) -> (label: String)
    ensures
        label@ == drive_label_of(*object, *block),
{
    match &block.id_label {
        Some(label) => {
            if !label.as_str().is_empty() {
                return label.clone();
            }
        },
        None => {},
    }
    match &block.device {
        Some(bytes) => {
            let device = c_string(bytes.as_slice());
            if !device.as_str().is_empty() {
                return device;
            }
        },
        None => {},
    }
    object_leaf(object.path.as_str())
}

fn copy_mount_points(points: &Vec<Vec<u8>>) -> (copy: Vec<Vec<u8>>)
    ensures
        copy.deep_view() == points.deep_view(),
{
    let mut copy: Vec<Vec<u8>> = Vec::new();
    let mut index: usize = 0;
    while index < points.len()
        invariant
            index <= points@.len(),
            copy@.len() == index,
            forall|i: int| 0 <= i < index ==> (#[trigger] copy@[i])@ == points@[i]@,
        decreases points@.len() - index,
    {
        let source = &points[index];
        let mut bytes: Vec<u8> = Vec::new();
        let mut position: usize = 0;
        while position < source.len()
            invariant
                position <= source@.len(),
                bytes@ == source@.take(position as int),
            decreases source@.len() - position,
        {
            bytes.push(source[position]);
            position += 1;
            proof {
                assert(bytes@ =~= source@.take(position as int));
            }
        }
        proof {
            assert(bytes@ =~= source@);
        }
        copy.push(bytes);
        index += 1;
    }
    proof {
        assert(copy.deep_view() =~= points.deep_view()) by {
            assert forall|i: int| 0 <= i < points@.len() implies #[trigger] copy.deep_view()[i] == points.deep_view()[i] by {
                assert(copy@[i]@ == points@[i]@);
            }
        }
    }
    copy
}

/// The mounted, removable, ejectable and non-system filesystems among the
/// UDisks2 objects, ordered by label; the first property that could not be
/// decoded ends the listing with a protocol error.
pub fn ejectable_drives(objects: &[UdisksObject]) -> (result: Result<Vec<EjectableDrive>, QuickToggleError>)
    ensures
        match drives_found(objects@, objects@.len() as int) {
            Ok(found) => result matches Ok(drives)
                && drives@.map_values(drive_record()) == sorted_by(found, record_label()),
            Err(message) => result matches Err(error) && error.kind == QuickToggleErrorKind::Protocol
                && error.message@ == message,
        },
{
    let mut drives: Vec<EjectableDrive> = Vec::new();
    let mut index: usize = 0;
    while index < objects.len()
        invariant
            index <= objects@.len(),
            drives_found(objects@, index as int) matches Ok(found) && drives@.map_values(drive_record()) == found,
        decreases objects@.len() - index,
    {
        let object = &objects[index];
        index += 1;
        let ghost before = drives@;
        let block = match &object.block {
            Some(block) => block,
            None => {
                continue;
            },
        };
        let mount_points_fact = match &object.mount_points {
            Some(fact) => fact,
            None => {
                continue;
            },
        };
        let system = match block.hint_system { Some(value) => value, None => true };
        if system {
            continue;
        }
        let drive_path = match &block.drive {
            Ok(path) => path,
            Err(message) => {
                proof {
                    lemma_drives_found_error(objects@, index as int, objects@.len() as int);
                }
                return Err(QuickToggleError { kind: QuickToggleErrorKind::Protocol, message: message.clone() });
            },
        };
        match drive_flags(objects, drive_path.as_str()) {
            Some((true, true)) => {},
            _ => {
                continue;
            },
        }
        let mount_points = match mount_points_fact {
            Ok(points) => points,
            Err(message) => {
                proof {
                    lemma_drives_found_error(objects@, index as int, objects@.len() as int);
                }
                return Err(QuickToggleError { kind: QuickToggleErrorKind::Protocol, message: message.clone() });
            },
        };
        if mount_points.len() == 0 {
            continue;
        }
        let mut target = object.path.clone();
        target.append("|");
        target.append(drive_path.as_str());
        let drive = EjectableDrive {
            target,
            block_path: object.path.clone(),
            drive_path: drive_path.clone(),
            label: drive_label(object, block),
            mount_points: copy_mount_points(mount_points),
        };
        drives.push(drive);
        proof {
            assert(drives@.map_values(drive_record()) =~= before.map_values(drive_record()).push(drive_record()(drive)));
        }
    }
    let ghost found = drives@;
    let sorted = sort_by_key(drives);
    proof {
        crate::sorting::lemma_sorted_by_key_map(found, drive_record(), record_label());
    }
    Ok(sorted)
}

/// The eject toggle's report from the drive discovery.
pub fn eject_capability(drives: Result<usize, QuickToggleError>) -> (report: CapabilityReport)
    ensures
        report.feature_id == toggle_feature_id(QuickToggleId::Eject),
        report@ == match drives {
            Ok(count) => toggle_report(
                QuickToggleId::Eject,
                StatusModel::Supported,
                "UDisks2 is available; "@ + decimal(count as nat) + " mounted removable drive(s) are currently eligible."@,
                Some("UDisks2 D-Bus"@),
                None,
                seq![("eligible-drive-count"@, decimal(count as nat))],
            ),
            Err(error) => if error.kind == QuickToggleErrorKind::PermissionDenied {
                denied_report(
                    QuickToggleId::Eject,
                    Permission::RemovableMedia,
                    "UDisks2 denied removable-drive discovery."@,
                    "Grant normal active-session UDisks2 permissions; Kestrel will not elevate itself."@,
                )
            } else {
                unavailable_report(QuickToggleId::Eject, "UDisks2"@, error.kind, error.message@)
            },
        },
        drives matches Ok(count) ==> report.status@ == StatusModel::Supported
            && report.summary@ == "UDisks2 is available; "@ + decimal(count as nat) + " mounted removable drive(s) are currently eligible."@
            && report.evidence@.len() == 1 && report.evidence@[0]@ == ("eligible-drive-count"@, decimal(count as nat)),
        drives matches Err(error) && error.kind == QuickToggleErrorKind::PermissionDenied ==> report.status@
            == StatusModel::NeedsPermission(Permission::RemovableMedia),
        drives matches Err(error) && error.kind == QuickToggleErrorKind::Unavailable ==> report.status@
            == StatusModel::MissingDependency("UDisks2"@),
{
    let id = QuickToggleId::Eject;
    match drives {
        Ok(count) => {
            let digits = decimal_text(count as u64);
            let mut summary = owned("UDisks2 is available; ");
            summary.append(digits.as_str());
            summary.append(" mounted removable drive(s) are currently eligible.");
            let report = supported(id, summary.as_str(), "UDisks2 D-Bus").with_evidence(
                CapabilityEvidence::new("eligible-drive-count", digits.as_str()),
            );
            proof {
                assert(report@.evidence =~= seq![("eligible-drive-count"@, digits@)]);
            }
            report
        },
        Err(error) => {
            if error.kind == QuickToggleErrorKind::PermissionDenied {
                permission_denied(
                    id,
                    Permission::RemovableMedia,
                    "UDisks2 denied removable-drive discovery.",
                    "Grant normal active-session UDisks2 permissions; Kestrel will not elevate itself.",
                )
            } else {
                unavailable_capability(id, "UDisks2", error)
            }
        },
    }
}

/// What the eject toggle shows: how many drives are eligible.
pub fn eject_detail(count: usize) -> (detail: String)
    ensures
        detail@ == if count == 0 {
            "No mounted removable, non-system drive is currently eligible for ejection."@
        } else {
            decimal(count as nat) + " removable drive(s) can be safely unmounted and ejected."@
        },
{
    if count == 0 {
        owned("No mounted removable, non-system drive is currently eligible for ejection.")
    } else {
        let mut detail = decimal_text(count as u64);
        detail.append(" removable drive(s) can be safely unmounted and ejected.");
        detail
    }
}

/// The target an eject request names, or its refusal.
pub fn eject_target(mutation: &QuickToggleMutation) -> (result: Result<String, QuickToggleError>)
    ensures
        match *mutation {
            QuickToggleMutation::Activate { target: Some(target) } => result matches Ok(found) && found == target,
            _ => result matches Err(error) && error.kind == QuickToggleErrorKind::InvalidRequest
                && error.message@ == "eject requires one advertised removable-drive target"@,
        },
{
    match mutation {
        QuickToggleMutation::Activate { target: Some(target) } => Ok(target.clone()),
        _ => Err(QuickToggleError::new(QuickToggleErrorKind::InvalidRequest, "eject requires one advertised removable-drive target")),
    }
}

/// The report of a desktop setting that cannot be used.
pub open spec fn settings_unsupported_report(id: QuickToggleId, reason: Seq<char>) -> ReportModel {
    toggle_report(
        id,
        StatusModel::Unsupported(reason),
        toggle_label(id)@ + " is unavailable for this desktop."@,
        None,
        Some(reason),
        Seq::empty(),
    )
}

/// The report of a desktop setting that cannot be used.
pub fn settings_unsupported(id: QuickToggleId, reason: &str) -> (report: CapabilityReport)
    ensures
        report.feature_id == toggle_feature_id(id),
        report@ == settings_unsupported_report(id, reason@),
        report.status@ == StatusModel::Unsupported(reason@),
        report.summary@ == toggle_label(id)@ + " is unavailable for this desktop."@,
        report.remediation matches Some(text) && text@ == reason@,
{
    let mut summary = owned(id.label());
    summary.append(" is unavailable for this desktop.");
    let report = CapabilityReport::new(id.feature_id(), CapabilityStatus::Unsupported { reason: owned(reason) }, summary.as_str())
        .with_remediation(reason);
    proof {
        assert(report@.alternatives_considered =~= Seq::<Seq<char>>::empty());
        assert(report@.evidence =~= Seq::<(Seq<char>, Seq<char>)>::empty());
    }
    report
}

/// The refusal of a desktop-setting switch given anything but on or off.
pub fn settings_invalid_switch() -> (error: QuickToggleError)
    ensures
        error.kind == QuickToggleErrorKind::InvalidRequest,
        error.message@ == "this adapter accepts only an enabled/disabled value"@,
{
    QuickToggleError::new(QuickToggleErrorKind::InvalidRequest, "this adapter accepts only an enabled/disabled value")
}

/// The report of a boolean desktop setting found at `schema` and `key`.
pub fn setting_capability(
    id: QuickToggleId,
    lookup: Result<(String, String, bool), QuickToggleError>,
    summary: &str,
) -> (report: CapabilityReport)
    ensures
        report.feature_id == toggle_feature_id(id),
        report@ == match lookup {
            Err(error) => settings_unsupported_report(id, error.message@),
            Ok((schema, key, writable)) => if writable {
                toggle_report(id, StatusModel::Supported, summary@, Some("GSettings "@ + schema@), None, seq![("settings-key"@, key@)])
            } else {
                denied_report(
                    id,
                    Permission::DesktopSettings,
                    "The "@ + schema@ + " setting is present but read-only."@,
                    "Allow the current user to change this desktop setting; Kestrel will not elevate itself."@,
                )
            },
        },
        match lookup {
            Err(error) => report.status@ == StatusModel::Unsupported(error.message@),
            Ok((schema, key, writable)) => if writable {
                &&& report.status@ == StatusModel::Supported
                &&& report.selected_backend matches Some(backend) && backend@ == "GSettings "@ + schema@
                &&& report.evidence@.len() == 1
                &&& report.evidence@[0]@ == ("settings-key"@, key@)
            } else {
                &&& report.status@ == StatusModel::NeedsPermission(Permission::DesktopSettings)
                &&& report.summary@ == "The "@ + schema@ + " setting is present but read-only."@
            },
        },
{
    match lookup {
        Err(error) => settings_unsupported(id, error.message.as_str()),
        Ok((schema, key, writable)) => {
            if !writable {
                let mut message = owned("The ");
                message.append(schema.as_str());
                message.append(" setting is present but read-only.");
                permission_denied(
                    id,
                    Permission::DesktopSettings,
                    message.as_str(),
                    "Allow the current user to change this desktop setting; Kestrel will not elevate itself.",
                )
            } else {
                let mut backend = owned("GSettings ");
                backend.append(schema.as_str());
                let report = supported(id, summary, backend.as_str()).with_evidence(
                    CapabilityEvidence::new("settings-key", key.as_str()),
                );
                proof {
                    assert(report@.evidence =~= seq![("settings-key"@, key@)]);
                }
                report
            }
        },
    }
}

/// How a boolean desktop setting is observed.
pub fn setting_observation(label: &str, schema: &str, enabled: bool) -> (observation: QuickToggleObservation)
    ensures
        observation.control@ == crate::quick_toggles::ControlModel::Switch(enabled, None),
        observation.detail@ == label@ + " are "@ + (if enabled { "visible"@ } else { "hidden"@ }) + " through "@ + schema@ + "."@,
{
    let mut detail = owned(label);
    detail.append(" are ");
    detail.append(if enabled { "visible" } else { "hidden" });
    detail.append(" through ");
    detail.append(schema);
    detail.append(".");
    QuickToggleObservation { control: QuickToggleControl::Switch { enabled, confirmation: None }, detail }
}

/// The candidate keys, each as `schema:key`, separated by `, `.
pub open spec fn joined_keys(candidates: Seq<(&'static str, &'static str)>) -> Seq<char>
    decreases candidates.len(),
{
    if candidates.len() == 0 {
        Seq::empty()
    } else {
        let last = candidates.last();
        let entry = last.0@ + ":"@ + last.1@;
        if candidates.len() == 1 {
            entry
        } else {
            joined_keys(candidates.drop_last()) + ", "@ + entry
        }
    }
}

/// The error when none of a setting's candidate keys is installed.
pub fn missing_settings(candidates: &[(&'static str, &'static str)]) -> (error: QuickToggleError)
    ensures
        error.kind == QuickToggleErrorKind::Unavailable,
        error.message@ == "none of the supported settings keys are installed: "@ + joined_keys(candidates@),
{
    let mut message = owned("none of the supported settings keys are installed: ");
    let ghost prefix = message@;
    let mut index: usize = 0;
    while index < candidates.len()
        invariant
            index <= candidates@.len(),
            message@ == prefix + joined_keys(candidates@.take(index as int)),
        decreases candidates@.len() - index,
    {
        proof {
            let next = candidates@.take(index + 1);
            assert(next.drop_last() =~= candidates@.take(index as int));
            assert(next.last() == candidates@[index as int]);
        }
        if index > 0 {
            message.append(", ");
        }
        message.append(candidates[index].0);
        message.append(":");
        message.append(candidates[index].1);
        index += 1;
        proof {
            let entry = candidates@[index - 1].0@ + ":"@ + candidates@[index - 1].1@;
            if index == 1 {
                assert(joined_keys(candidates@.take(0)) =~= Seq::<char>::empty());
                assert(message@ =~= prefix + entry);
            } else {
                assert(message@ =~= prefix + (joined_keys(candidates@.take(index - 1)) + ", "@ + entry));
            }
        }
    }
    proof {
        assert(candidates@.take(candidates@.len() as int) =~= candidates@);
    }
    QuickToggleError { kind: QuickToggleErrorKind::Unavailable, message }
}

/// The report of the dark-appearance setting.
pub fn appearance_capability(lookup: Result<bool, QuickToggleError>) -> (report: CapabilityReport)
    ensures
        report.feature_id == toggle_feature_id(QuickToggleId::Appearance),
        report@ == match lookup {
            Err(error) => settings_unsupported_report(QuickToggleId::Appearance, error.message@),
            Ok(writable) => if writable {
                supported_report(
                    QuickToggleId::Appearance,
                    "The desktop exposes a writable dark-appearance preference."@,
                    "GSettings org.gnome.desktop.interface"@,
                )
            } else {
                denied_report(
                    QuickToggleId::Appearance,
                    Permission::DesktopSettings,
                    "The desktop appearance setting is present but read-only."@,
                    "Allow the current user to change the desktop color-scheme setting."@,
                )
            },
        },
        lookup matches Err(error) ==> report.status@ == StatusModel::Unsupported(error.message@),
        lookup == Ok::<bool, QuickToggleError>(false) ==> report.status@ == StatusModel::NeedsPermission(Permission::DesktopSettings),
        lookup == Ok::<bool, QuickToggleError>(true) ==> report.status@ == StatusModel::Supported,
{
    let id = QuickToggleId::Appearance;
    match lookup {
        Err(error) => settings_unsupported(id, error.message.as_str()),
        Ok(writable) => {
            if !writable {
                permission_denied(
                    id,
                    Permission::DesktopSettings,
                    "The desktop appearance setting is present but read-only.",
                    "Allow the current user to change the desktop color-scheme setting.",
                )
            } else {
                supported(id, "The desktop exposes a writable dark-appearance preference.", "GSettings org.gnome.desktop.interface")
            }
        },
    }
}

/// How the desktop color scheme is observed: dark means `prefer-dark`.
pub fn appearance_observation(scheme: &str) -> (observation: QuickToggleObservation)
    ensures
        observation.control@ == crate::quick_toggles::ControlModel::Switch(scheme@ == "prefer-dark"@, None),
        observation.detail@ == "Desktop color scheme: "@ + scheme@ + "."@,
{
    let mut detail = owned("Desktop color scheme: ");
    detail.append(scheme);
    detail.append(".");
    QuickToggleObservation {
        control: QuickToggleControl::Switch { enabled: str_equal(scheme, "prefer-dark"), confirmation: None },
        detail,
    }
}

/// The color scheme a dark-appearance request writes.
pub fn appearance_request(mutation: &QuickToggleMutation) -> (result: Result<&'static str, QuickToggleError>)
    ensures
        match *mutation {
            QuickToggleMutation::SetEnabled(enabled) => result matches Ok(scheme)
                && scheme@ == if enabled { "prefer-dark"@ } else { "default"@ },
            _ => result matches Err(error) && error.kind == QuickToggleErrorKind::InvalidRequest,
        },
{
    match mutation {
        QuickToggleMutation::SetEnabled(enabled) => Ok(if *enabled { "prefer-dark" } else { "default" }),
        _ => Err(settings_invalid_switch()),
    }
}

} // verus!
