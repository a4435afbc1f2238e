//! Capability-gated, user-session-safe quick-toggle vocabulary and rules.

use vstd::prelude::*;

use crate::capability::{CapabilityReport, CapabilityStatus, Permission};
use crate::registry::CapabilityProbe;
use crate::text::{optional_text, owned, str_equal};

verus! {

pub const KEEP_AWAKE_ID: &'static str = "power.keep-awake";

pub const APPEARANCE_ID: &'static str = "desktop.appearance";

pub const BRIGHTNESS_ID: &'static str = "display.brightness";

pub const KEYBOARD_LIGHT_ID: &'static str = "keyboard.backlight";

pub const BLUETOOTH_ID: &'static str = "radio.bluetooth";

pub const WIFI_ID: &'static str = "radio.wifi";

pub const EMPTY_TRASH_ID: &'static str = "files.empty-trash";

pub const EJECT_ID: &'static str = "storage.eject";

pub const HIDDEN_FILES_ID: &'static str = "files.show-hidden";

pub const DESKTOP_ICONS_ID: &'static str = "desktop.icons";

pub const SCREEN_LOCK_ID: &'static str = "session.lock";

pub const BATTERY_ALERTS_ID: &'static str = "power.battery-alerts";

/// One of the built-in quick toggles.
#[derive(Debug, Clone, Copy, PartialEq, Eq, Structural, PartialOrd, Ord, Hash)]
pub enum QuickToggleId {
    KeepAwake,
    Appearance,
    Brightness,
    KeyboardLight,
    Bluetooth,
    Wifi,
    EmptyTrash,
    Eject,
    HiddenFiles,
    DesktopIcons,
    ScreenLock,
    BatteryAlerts,
}

/// Every built-in quick toggle, in presentation order.
pub const ALL_QUICK_TOGGLES: [QuickToggleId; 12] = [
    QuickToggleId::KeepAwake,
    QuickToggleId::Appearance,
    QuickToggleId::Brightness,
    QuickToggleId::KeyboardLight,
    QuickToggleId::Bluetooth,
    QuickToggleId::Wifi,
    QuickToggleId::EmptyTrash,
    QuickToggleId::Eject,
    QuickToggleId::HiddenFiles,
    QuickToggleId::DesktopIcons,
    QuickToggleId::ScreenLock,
    QuickToggleId::BatteryAlerts,
];

/// The number of built-in quick toggles.
pub const QUICK_TOGGLE_COUNT: usize = 12;

/// The position of a toggle in presentation order.
pub open spec fn toggle_index(id: QuickToggleId) -> int {
    match id {
        QuickToggleId::KeepAwake => 0,
        QuickToggleId::Appearance => 1,
        QuickToggleId::Brightness => 2,
        QuickToggleId::KeyboardLight => 3,
        QuickToggleId::Bluetooth => 4,
        QuickToggleId::Wifi => 5,
        QuickToggleId::EmptyTrash => 6,
        QuickToggleId::Eject => 7,
        QuickToggleId::HiddenFiles => 8,
        QuickToggleId::DesktopIcons => 9,
        QuickToggleId::ScreenLock => 10,
        QuickToggleId::BatteryAlerts => 11,
    }
}

/// The toggle at a position in presentation order.
pub open spec fn toggle_at(index: int) -> QuickToggleId {
    if index == 0 {
        QuickToggleId::KeepAwake
    } else if index == 1 {
        QuickToggleId::Appearance
    } else if index == 2 {
        QuickToggleId::Brightness
    } else if index == 3 {
        QuickToggleId::KeyboardLight
    } else if index == 4 {
        QuickToggleId::Bluetooth
    } else if index == 5 {
        QuickToggleId::Wifi
    } else if index == 6 {
        QuickToggleId::EmptyTrash
    } else if index == 7 {
        QuickToggleId::Eject
    } else if index == 8 {
        QuickToggleId::HiddenFiles
    } else if index == 9 {
        QuickToggleId::DesktopIcons
    } else if index == 10 {
        QuickToggleId::ScreenLock
    } else {
        QuickToggleId::BatteryAlerts
    }
}

/// Toggles whose state Kestrel itself holds rather than a desktop provider.
pub open spec fn kestrel_owned(id: QuickToggleId) -> bool {
    id == QuickToggleId::KeepAwake || id == QuickToggleId::BatteryAlerts
}

/// The stable feature ID of a toggle.
pub open spec fn toggle_feature_id(id: QuickToggleId) -> &'static str {
    match id {
        QuickToggleId::KeepAwake => KEEP_AWAKE_ID,
        QuickToggleId::Appearance => APPEARANCE_ID,
        QuickToggleId::Brightness => BRIGHTNESS_ID,
        QuickToggleId::KeyboardLight => KEYBOARD_LIGHT_ID,
        QuickToggleId::Bluetooth => BLUETOOTH_ID,
        QuickToggleId::Wifi => WIFI_ID,
        QuickToggleId::EmptyTrash => EMPTY_TRASH_ID,
        QuickToggleId::Eject => EJECT_ID,
        QuickToggleId::HiddenFiles => HIDDEN_FILES_ID,
        QuickToggleId::DesktopIcons => DESKTOP_ICONS_ID,
        QuickToggleId::ScreenLock => SCREEN_LOCK_ID,
        QuickToggleId::BatteryAlerts => BATTERY_ALERTS_ID,
    }
}

/// The user-facing label of a toggle.
pub open spec fn toggle_label(id: QuickToggleId) -> &'static str {
    match id {
        QuickToggleId::KeepAwake => "Keep awake",
        QuickToggleId::Appearance => "Dark appearance",
        QuickToggleId::Brightness => "Internal brightness",
        QuickToggleId::KeyboardLight => "Keyboard light",
        QuickToggleId::Bluetooth => "Bluetooth",
        QuickToggleId::Wifi => "Wi-Fi",
        QuickToggleId::EmptyTrash => "Empty Trash",
        QuickToggleId::Eject => "Eject removable disks",
        QuickToggleId::HiddenFiles => "Show hidden files",
        QuickToggleId::DesktopIcons => "Desktop icons",
        QuickToggleId::ScreenLock => "Lock screen",
        QuickToggleId::BatteryAlerts => "Battery alerts",
    }
}

/// What the session must offer for a toggle to work.
pub open spec fn toggle_requirement(id: QuickToggleId) -> &'static str {
    match id {
        QuickToggleId::KeepAwake => "A logind user-session inhibitor; no elevated privileges.",
        QuickToggleId::Appearance => "A writable desktop appearance GSettings key.",
        QuickToggleId::Brightness => "A writable internal backlight exposed by sysfs.",
        QuickToggleId::KeyboardLight => "A writable keyboard-backlight LED exposed by sysfs.",
        QuickToggleId::Bluetooth => "A BlueZ adapter and permission to change its Powered property.",
        QuickToggleId::Wifi => "NetworkManager and permission to change WirelessEnabled.",
        QuickToggleId::EmptyTrash => "The current user's local XDG Trash; remote trash is excluded.",
        QuickToggleId::Eject => "A mounted, removable, non-system UDisks2 drive.",
        QuickToggleId::HiddenFiles => "A writable supported file-manager GSettings key.",
        QuickToggleId::DesktopIcons => "A writable supported desktop-icons GSettings key.",
        QuickToggleId::ScreenLock => "A current logind graphical session.",
        QuickToggleId::BatteryAlerts => "A system battery and a desktop notification service.",
    }
}

impl QuickToggleId {
    /// The stable feature ID of this toggle.
    pub fn feature_id(self) -> (id: &'static str)
        ensures
            id == toggle_feature_id(self),
    {
        match self {
            QuickToggleId::KeepAwake => KEEP_AWAKE_ID,
            QuickToggleId::Appearance => APPEARANCE_ID,
            QuickToggleId::Brightness => BRIGHTNESS_ID,
            QuickToggleId::KeyboardLight => KEYBOARD_LIGHT_ID,
            QuickToggleId::Bluetooth => BLUETOOTH_ID,
            QuickToggleId::Wifi => WIFI_ID,
            QuickToggleId::EmptyTrash => EMPTY_TRASH_ID,
            QuickToggleId::Eject => EJECT_ID,
            QuickToggleId::HiddenFiles => HIDDEN_FILES_ID,
            QuickToggleId::DesktopIcons => DESKTOP_ICONS_ID,
            QuickToggleId::ScreenLock => SCREEN_LOCK_ID,
            QuickToggleId::BatteryAlerts => BATTERY_ALERTS_ID,
        }
    }

    /// The user-facing label of this toggle.
    pub fn label(self) -> (label: &'static str)
        ensures
            label == toggle_label(self),
    {
        match self {
            QuickToggleId::KeepAwake => "Keep awake",
            QuickToggleId::Appearance => "Dark appearance",
            QuickToggleId::Brightness => "Internal brightness",
            QuickToggleId::KeyboardLight => "Keyboard light",
            QuickToggleId::Bluetooth => "Bluetooth",
            QuickToggleId::Wifi => "Wi-Fi",
            QuickToggleId::EmptyTrash => "Empty Trash",
            QuickToggleId::Eject => "Eject removable disks",
            QuickToggleId::HiddenFiles => "Show hidden files",
            QuickToggleId::DesktopIcons => "Desktop icons",
            QuickToggleId::ScreenLock => "Lock screen",
            QuickToggleId::BatteryAlerts => "Battery alerts",
        }
    }

    /// What the session must offer for this toggle to work.
    pub fn requirement(self) -> (requirement: &'static str)
        ensures
            requirement == toggle_requirement(self),
    {
        match self {
            QuickToggleId::KeepAwake => "A logind user-session inhibitor; no elevated privileges.",
            QuickToggleId::Appearance => "A writable desktop appearance GSettings key.",
            QuickToggleId::Brightness => "A writable internal backlight exposed by sysfs.",
            QuickToggleId::KeyboardLight => "A writable keyboard-backlight LED exposed by sysfs.",
            QuickToggleId::Bluetooth => "A BlueZ adapter and permission to change its Powered property.",
            QuickToggleId::Wifi => "NetworkManager and permission to change WirelessEnabled.",
            QuickToggleId::EmptyTrash => "The current user's local XDG Trash; remote trash is excluded.",
            QuickToggleId::Eject => "A mounted, removable, non-system UDisks2 drive.",
            QuickToggleId::HiddenFiles => "A writable supported file-manager GSettings key.",
            QuickToggleId::DesktopIcons => "A writable supported desktop-icons GSettings key.",
            QuickToggleId::ScreenLock => "A current logind graphical session.",
            QuickToggleId::BatteryAlerts => "A system battery and a desktop notification service.",
        }
    }

    /// The position of this toggle in presentation order.
    pub fn index(self) -> (index: usize)
        ensures
            index == toggle_index(self),
            index < QUICK_TOGGLE_COUNT,
    {
        match self {
            QuickToggleId::KeepAwake => 0,
            QuickToggleId::Appearance => 1,
            QuickToggleId::Brightness => 2,
            QuickToggleId::KeyboardLight => 3,
            QuickToggleId::Bluetooth => 4,
            QuickToggleId::Wifi => 5,
            QuickToggleId::EmptyTrash => 6,
            QuickToggleId::Eject => 7,
            QuickToggleId::HiddenFiles => 8,
            QuickToggleId::DesktopIcons => 9,
            QuickToggleId::ScreenLock => 10,
            QuickToggleId::BatteryAlerts => 11,
        }
    }
}

/// A confirmation that a disruptive mutation must echo back.
#[derive(Debug, Clone)]
pub struct MutationConfirmation {
    pub scope: String,
    pub token: String,
}

impl View for MutationConfirmation {
    type V = (Seq<char>, Seq<char>);

    open spec fn view(&self) -> (Seq<char>, Seq<char>) {
        (self.scope@, self.token@)
    }
}

impl MutationConfirmation {
    /// A copy with equal contents.
    pub fn duplicate(&self) -> (copy: Self)
        ensures
            copy@ == self@,
    {
        MutationConfirmation { scope: self.scope.clone(), token: self.token.clone() }
    }
}

impl PartialEq for MutationConfirmation {
    fn eq(&self, other: &Self) -> (equal: bool) {
        self.scope.eq(&other.scope) && self.token.eq(&other.token)
    }
}

impl vstd::std_specs::cmp::PartialEqSpecImpl for MutationConfirmation {
    open spec fn obeys_eq_spec() -> bool {
        true
    }

    open spec fn eq_spec(&self, other: &Self) -> bool {
        self@ == other@
    }
}

impl Eq for MutationConfirmation {

}

/// The content of an optional confirmation.
pub open spec fn optional_confirmation(value: Option<MutationConfirmation>) -> Option<(Seq<char>, Seq<char>)> {
    match value {
        Some(confirmation) => Some(confirmation@),
        None => None,
    }
}

/// One action a toggle offers.
#[derive(Debug, Clone)]
pub struct ToggleAction {
    pub target: Option<String>,
    pub label: String,
    pub confirmation: MutationConfirmation,
}

/// The content of a toggle action.
pub struct ActionModel {
    pub target: Option<Seq<char>>,
    pub label: Seq<char>,
    pub confirmation: (Seq<char>, Seq<char>),
}

impl View for ToggleAction {
    type V = ActionModel;

    open spec fn view(&self) -> ActionModel {
        ActionModel {
            target: optional_text(self.target),
            label: self.label@,
            confirmation: self.confirmation@,
        }
    }
}

/// The contents of a list of actions.
pub open spec fn actions_view(actions: Seq<ToggleAction>) -> Seq<ActionModel> {
    actions.map_values(|action: ToggleAction| action@)
}

/// How a toggle is operated.
#[derive(Debug, Clone)]
pub enum QuickToggleControl {
    Switch { enabled: bool, confirmation: Option<MutationConfirmation> },
    Level { percentage: u8 },
    Actions(Vec<ToggleAction>),
}

/// The content of a toggle control.
pub enum ControlModel {
    Switch(bool, Option<(Seq<char>, Seq<char>)>),
    Level(u8),
    Actions(Seq<ActionModel>),
}

impl View for QuickToggleControl {
    type V = ControlModel;

    open spec fn view(&self) -> ControlModel {
        match self {
            QuickToggleControl::Switch { enabled, confirmation } => ControlModel::Switch(
                *enabled,
                optional_confirmation(*confirmation),
            ),
            QuickToggleControl::Level { percentage } => ControlModel::Level(*percentage),
            QuickToggleControl::Actions(actions) => ControlModel::Actions(actions_view(actions@)),
        }
    }
}

fn same_optional_text(left: &Option<String>, right: &Option<String>) -> (same: bool)
    ensures
        same == (optional_text(*left) == optional_text(*right)),
{
    match (left, right) {
        (Some(a), Some(b)) => a.eq(b),
        (None, None) => true,
        _ => false,
    }
}

fn same_confirmation(left: &MutationConfirmation, right: &MutationConfirmation) -> (same: bool)
    ensures
        same == (left@ == right@),
{
    left.scope.eq(&right.scope) && left.token.eq(&right.token)
}

fn same_actions(left: &Vec<ToggleAction>, right: &Vec<ToggleAction>) -> (same: bool)
    ensures
        same == (actions_view(left@) == actions_view(right@)),
{
    if left.len() != right.len() {
        return false;
    }
    let mut index: usize = 0;
    while index < left.len()
        invariant
            index <= left@.len(),
            left@.len() == right@.len(),
            forall|j: int| 0 <= j < index ==> left@[j]@ == right@[j]@,
        decreases left@.len() - index,
    {
        let a = &left[index];
        let b = &right[index];
        if !(same_optional_text(&a.target, &b.target) && a.label.eq(&b.label) && same_confirmation(
            &a.confirmation,
            &b.confirmation,
        )) {
            assert(actions_view(left@)[index as int] != actions_view(right@)[index as int]);
            return false;
        }
        index += 1;
    }
    assert(actions_view(left@) =~= actions_view(right@));
    true
}

impl QuickToggleControl {
    /// Whether two controls have equal contents.
    pub fn same_as(&self, other: &Self) -> (same: bool)
        ensures
            same == (self@ == other@),
    {
        match (self, other) {
            (
                QuickToggleControl::Switch { enabled: a, confirmation: ca },
                QuickToggleControl::Switch { enabled: b, confirmation: cb },
            ) => {
                *a == *b && match (ca, cb) {
                    (Some(x), Some(y)) => same_confirmation(x, y),
                    (None, None) => true,
                    _ => false,
                }
            },
            (
                QuickToggleControl::Level { percentage: a },
                QuickToggleControl::Level { percentage: b },
            ) => *a == *b,
            (QuickToggleControl::Actions(a), QuickToggleControl::Actions(b)) => same_actions(a, b),
            _ => false,
        }
    }
}

impl PartialEq for QuickToggleControl {
    fn eq(&self, other: &Self) -> (equal: bool) {
        self.same_as(other)
    }
}

impl vstd::std_specs::cmp::PartialEqSpecImpl for QuickToggleControl {
    open spec fn obeys_eq_spec() -> bool {
        true
    }

    open spec fn eq_spec(&self, other: &Self) -> bool {
        self@ == other@
    }
}

impl Eq for QuickToggleControl {

}

/// What a provider reported about a toggle.
#[derive(Debug, Clone)]
pub struct QuickToggleObservation {
    pub control: QuickToggleControl,
    pub detail: String,
}

/// A requested change to a toggle.
#[derive(Debug, Clone)]
pub enum QuickToggleMutation {
    SetEnabled(bool),
    SetLevel(u8),
    Activate { target: Option<String> },
}

/// The category of a quick-toggle failure.
#[derive(Debug, Clone, Copy, PartialEq, Eq, Structural)]
pub enum QuickToggleErrorKind {
    Unavailable,
    PermissionDenied,
    InvalidRequest,
    ConfirmationRequired,
    Protocol,
    Io,
}

/// A quick-toggle failure with a user-facing message.
#[derive(Debug, Clone)]
pub struct QuickToggleError {
    pub kind: QuickToggleErrorKind,
    pub message: String,
}

impl View for QuickToggleError {
    type V = (QuickToggleErrorKind, Seq<char>);

    open spec fn view(&self) -> (QuickToggleErrorKind, Seq<char>) {
        (self.kind, self.message@)
    }
}

impl QuickToggleError {
    /// Builds an error of the given kind.
    pub fn new(kind: QuickToggleErrorKind, message: &str) -> (error: Self)
        ensures
            error.kind == kind,
            error.message@ == message@,
    {
        QuickToggleError { kind, message: owned(message) }
    }

    /// A copy with equal contents.
    pub fn duplicate(&self) -> (copy: Self)
        ensures
            copy@ == self@,
    {
        QuickToggleError { kind: self.kind, message: self.message.clone() }
    }

    /// The user-facing message.
    pub fn describe(&self) -> (text: String)
        ensures
            text@ == self.message@,
    {
        self.message.clone()
    }
}

impl PartialEq for QuickToggleError {
    fn eq(&self, other: &Self) -> (equal: bool) {
        self.kind == other.kind && self.message.eq(&other.message)
    }
}

impl vstd::std_specs::cmp::PartialEqSpecImpl for QuickToggleError {
    open spec fn obeys_eq_spec() -> bool {
        true
    }

    open spec fn eq_spec(&self, other: &Self) -> bool {
        self@ == other@
    }
}

impl Eq for QuickToggleError {

}

/// One battery as read from the system.
#[derive(Debug, Clone)]
pub struct BatteryReading {
    pub name: String,
    pub capacity: Option<u8>,
    pub status: Option<String>,
}

impl crate::sorting::SortKey for BatteryReading {
    open spec fn sort_key(&self) -> Seq<char> {
        self.name@
    }

    fn key_text(&self) -> (key: &str) {
        self.name.as_str()
    }
}

/// Reads batteries and delivers low-battery notifications.
pub trait BatteryAlertSource {
    fn battery_readings(&self) -> Result<Vec<BatteryReading>, QuickToggleError>;

    fn notify_low_battery(&self, summary: &str, body: &str) -> Result<(), QuickToggleError>;
}

/// Observes and changes quick toggles on the current session.
pub trait QuickToggleBackend {
    fn capability(&self, id: QuickToggleId) -> CapabilityReport;

    fn observe(&self, id: QuickToggleId) -> Result<QuickToggleObservation, QuickToggleError>;

    fn confirmation(&self, id: QuickToggleId, mutation: &QuickToggleMutation) -> Result<
        Option<MutationConfirmation>,
        QuickToggleError,
    >;

    fn apply(
        &mut self,
        id: QuickToggleId,
        mutation: QuickToggleMutation,
        confirmation_token: Option<&str>,
    ) -> Result<QuickToggleObservation, QuickToggleError>;
}

/// Reports one toggle's capability through a backend.
#[derive(Debug, Clone)]
pub struct QuickToggleCapabilityProbe<B> {
    pub backend: B,
    pub id: QuickToggleId,
}

impl<B> QuickToggleCapabilityProbe<B> {
    /// A probe for `id` through `backend`.
    pub fn new(backend: B, id: QuickToggleId) -> (probe: Self)
        ensures
            probe.backend == backend,
            probe.id == id,
    {
        QuickToggleCapabilityProbe { backend, id }
    }
}

impl<B: QuickToggleBackend> CapabilityProbe for QuickToggleCapabilityProbe<B> {
    fn probe(&self) -> CapabilityReport {
        self.backend.capability(self.id)
    }
}

/// The quick toggle a stable feature ID names.
pub open spec fn toggle_named(id: Seq<char>) -> Option<QuickToggleId> {
    if id == KEEP_AWAKE_ID@ {
        Some(QuickToggleId::KeepAwake)
    } else if id == APPEARANCE_ID@ {
        Some(QuickToggleId::Appearance)
    } else if id == BRIGHTNESS_ID@ {
        Some(QuickToggleId::Brightness)
    } else if id == KEYBOARD_LIGHT_ID@ {
        Some(QuickToggleId::KeyboardLight)
    } else if id == BLUETOOTH_ID@ {
        Some(QuickToggleId::Bluetooth)
    } else if id == WIFI_ID@ {
        Some(QuickToggleId::Wifi)
    } else if id == EMPTY_TRASH_ID@ {
        Some(QuickToggleId::EmptyTrash)
    } else if id == EJECT_ID@ {
        Some(QuickToggleId::Eject)
    } else if id == HIDDEN_FILES_ID@ {
        Some(QuickToggleId::HiddenFiles)
    } else if id == DESKTOP_ICONS_ID@ {
        Some(QuickToggleId::DesktopIcons)
    } else if id == SCREEN_LOCK_ID@ {
        Some(QuickToggleId::ScreenLock)
    } else if id == BATTERY_ALERTS_ID@ {
        Some(QuickToggleId::BatteryAlerts)
    } else {
        None
    }
}

/// Each quick toggle's stable feature ID names that toggle and no other.
pub proof fn lemma_toggle_id_names_its_toggle(id: QuickToggleId)
    ensures
        toggle_named(toggle_feature_id(id)@) == Some(id),
{
    reveal_strlit("power.keep-awake");
    reveal_strlit("desktop.appearance");
    reveal_strlit("display.brightness");
    reveal_strlit("keyboard.backlight");
    reveal_strlit("radio.bluetooth");
    reveal_strlit("radio.wifi");
    reveal_strlit("files.empty-trash");
    reveal_strlit("storage.eject");
    reveal_strlit("files.show-hidden");
    reveal_strlit("desktop.icons");
    reveal_strlit("session.lock");
    reveal_strlit("power.battery-alerts");
    assert(KEEP_AWAKE_ID@.len() == 16);
    assert(APPEARANCE_ID@.len() == 18);
    assert(BRIGHTNESS_ID@.len() == 18);
    assert(KEYBOARD_LIGHT_ID@.len() == 18);
    assert(BLUETOOTH_ID@.len() == 15);
    assert(WIFI_ID@.len() == 10);
    assert(EMPTY_TRASH_ID@.len() == 17);
    assert(EJECT_ID@.len() == 13);
    assert(HIDDEN_FILES_ID@.len() == 17);
    assert(DESKTOP_ICONS_ID@.len() == 13);
    assert(SCREEN_LOCK_ID@.len() == 12);
    assert(BATTERY_ALERTS_ID@.len() == 20);
    assert("desktop.appearance"@[1] != "display.brightness"@[1]);
    assert("desktop.appearance"@[0] != "keyboard.backlight"@[0]);
    assert("display.brightness"@[0] != "keyboard.backlight"@[0]);
    assert("files.empty-trash"@[6] != "files.show-hidden"@[6]);
    assert("storage.eject"@[0] != "desktop.icons"@[0]);
    match id {
        QuickToggleId::KeepAwake => {},
        QuickToggleId::Appearance => {},
        QuickToggleId::Brightness => {},
        QuickToggleId::KeyboardLight => {},
        QuickToggleId::Bluetooth => {},
        QuickToggleId::Wifi => {},
        QuickToggleId::EmptyTrash => {},
        QuickToggleId::Eject => {},
        QuickToggleId::HiddenFiles => {},
        QuickToggleId::DesktopIcons => {},
        QuickToggleId::ScreenLock => {},
        QuickToggleId::BatteryAlerts => {},
    }
}

/// Distinct quick toggles have distinct stable feature IDs.
pub proof fn lemma_toggle_ids_distinct(first: QuickToggleId, second: QuickToggleId)
    requires
        first != second,
    ensures
        toggle_feature_id(first)@ != toggle_feature_id(second)@,
{
    lemma_toggle_id_names_its_toggle(first);
    lemma_toggle_id_names_its_toggle(second);
}

/// Whether the characters of `id` from `start` on are feature-ID
/// characters or single dots, no dot followed by another or ending the ID.
pub open spec fn id_chars_from(id: Seq<char>, start: nat) -> bool
    decreases id.len() - start,
{
    if start >= id.len() {
        true
    } else {
        &&& (id[start as int] == '.' || crate::configuration::feature_id_char(id[start as int]))
        &&& (id[start as int] == '.' ==> start + 1 < id.len() && id[start + 1int] != '.')
        &&& id_chars_from(id, start + 1)
    }
}

proof fn lemma_id_chars_from(id: Seq<char>, start: nat)
    requires
        id_chars_from(id, start),
    ensures
        forall|i: int| start <= i < id.len() ==> (id[i] == '.' || crate::configuration::feature_id_char(#[trigger] id[i])),
        forall|i: int| start <= i < id.len() && #[trigger] id[i] == '.' ==> i + 1 < id.len() && id[i + 1] != '.',
    decreases id.len() - start,
{
    if start < id.len() {
        lemma_id_chars_from(id, start + 1);
    }
}

/// Every quick toggle's stable feature ID is a valid feature ID.
pub proof fn lemma_toggle_id_valid(id: QuickToggleId)
    ensures
        crate::configuration::valid_feature_id(toggle_feature_id(id)@),
{
    reveal_with_fuel(id_chars_from, 21);
    match id {
        QuickToggleId::KeepAwake => {
            reveal_strlit("power.keep-awake");
            assert(id_chars_from(toggle_feature_id(id)@, 0));
        },
        QuickToggleId::Appearance => {
            reveal_strlit("desktop.appearance");
            assert(id_chars_from(toggle_feature_id(id)@, 0));
        },
        QuickToggleId::Brightness => {
            reveal_strlit("display.brightness");
            assert(id_chars_from(toggle_feature_id(id)@, 0));
        },
        QuickToggleId::KeyboardLight => {
            reveal_strlit("keyboard.backlight");
            assert(id_chars_from(toggle_feature_id(id)@, 0));
        },
        QuickToggleId::Bluetooth => {
            reveal_strlit("radio.bluetooth");
            assert(id_chars_from(toggle_feature_id(id)@, 0));
        },
        QuickToggleId::Wifi => {
            reveal_strlit("radio.wifi");
            assert(id_chars_from(toggle_feature_id(id)@, 0));
        },
        QuickToggleId::EmptyTrash => {
            reveal_strlit("files.empty-trash");
            assert(id_chars_from(toggle_feature_id(id)@, 0));
        },
        QuickToggleId::Eject => {
            reveal_strlit("storage.eject");
            assert(id_chars_from(toggle_feature_id(id)@, 0));
        },
        QuickToggleId::HiddenFiles => {
            reveal_strlit("files.show-hidden");
            assert(id_chars_from(toggle_feature_id(id)@, 0));
        },
        QuickToggleId::DesktopIcons => {
            reveal_strlit("desktop.icons");
            assert(id_chars_from(toggle_feature_id(id)@, 0));
        },
        QuickToggleId::ScreenLock => {
            reveal_strlit("session.lock");
            assert(id_chars_from(toggle_feature_id(id)@, 0));
        },
        QuickToggleId::BatteryAlerts => {
            reveal_strlit("power.battery-alerts");
            assert(id_chars_from(toggle_feature_id(id)@, 0));
        },
    }
    lemma_id_chars_from(toggle_feature_id(id)@, 0);
    assert(toggle_feature_id(id)@[0] != '.');
}

/// The built-in quick toggles, in presentation order, each with a valid
/// stable feature ID, and no two with the same one.
pub proof fn lemma_quick_toggle_ids_valid_and_distinct()
    ensures
        forall|i: int| 0 <= i < 12 ==> crate::configuration::valid_feature_id(toggle_feature_id(#[trigger] ALL_QUICK_TOGGLES@[i])@),
        forall|i: int, j: int| 0 <= i < 12 && 0 <= j < 12 && i != j ==> toggle_feature_id(#[trigger] ALL_QUICK_TOGGLES@[i])@
            != toggle_feature_id(#[trigger] ALL_QUICK_TOGGLES@[j])@,
{
    assert forall|i: int| 0 <= i < 12 implies ALL_QUICK_TOGGLES@[i] == toggle_at(i) && toggle_index(toggle_at(i)) == i by {}
    assert forall|i: int| 0 <= i < 12 implies crate::configuration::valid_feature_id(toggle_feature_id(#[trigger] ALL_QUICK_TOGGLES@[i])@) by {
        lemma_toggle_id_valid(ALL_QUICK_TOGGLES@[i]);
    }
    assert forall|i: int, j: int| 0 <= i < 12 && 0 <= j < 12 && i != j implies toggle_feature_id(#[trigger] ALL_QUICK_TOGGLES@[i])@
        != toggle_feature_id(#[trigger] ALL_QUICK_TOGGLES@[j])@ by {
        assert(toggle_index(ALL_QUICK_TOGGLES@[i]) == i);
        assert(toggle_index(ALL_QUICK_TOGGLES@[j]) == j);
        lemma_toggle_ids_distinct(ALL_QUICK_TOGGLES@[i], ALL_QUICK_TOGGLES@[j]);
    }
}

} // verus!
