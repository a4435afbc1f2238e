//! Application policy: the built-in features, enablement presets, panel
//! ordering and the commands entry surfaces send.

use crate::alerts::AlertKind;
use crate::monitor_config::{AlertThreshold, MonitorReadout};
use vstd::prelude::*;

use crate::capability::{
    CapabilityReport, CapabilityStatus, CostLevel, FeatureSpec, ResourceCost, StatusModel,
    is_available, status_available,
};
use crate::configuration::{
    AppearancePreference, ApplicationConfiguration, FeatureConfigurationSnapshot, PanelSection,
    PanelSectionConfiguration, has_duplicate_section, enabled_in,
};
use crate::feature_map::{FeatureConfiguration, FeatureEntries, inserted, lookup};
use crate::quick_toggles::{
    ALL_QUICK_TOGGLES, KEEP_AWAKE_ID, QUICK_TOGGLE_COUNT, QuickToggleId, SCREEN_LOCK_ID,
    toggle_at, toggle_feature_id, toggle_label,
};
use crate::registry::{
    FeatureRegistry, RegistryError, ServiceRegistration, consistent_registrations, position_of, refreshed,
    registered, started, with_enabled,
};
use crate::text::{owned, str_equal};
use crate::toggle_service::QuickToggleCommand;

verus! {

/// The normal window, always available as the command surface.
pub const COMMAND_SURFACE_ID: &'static str = "app.command-surface";

/// Global shortcuts, for which no portable adapter exists yet.
pub const GLOBAL_SHORTCUTS_ID: &'static str = "global.shortcuts";

/// The system monitor.
pub const SYSTEM_MONITOR_ID: &'static str = "system.monitor";

/// A built-in enablement policy for the configurable features.
#[derive(Debug, Clone, Copy, PartialEq, Eq, Structural)]
pub enum FeaturePreset {
    Essentials,
    Balanced,
    Everything,
}

/// The name of a preset.
pub open spec fn preset_label(preset: FeaturePreset) -> &'static str {
    match preset {
        FeaturePreset::Essentials => "Essentials",
        FeaturePreset::Balanced => "Balanced",
        FeaturePreset::Everything => "Everything",
    }
}

/// What a preset enables, in words.
pub open spec fn preset_description(preset: FeaturePreset) -> &'static str {
    match preset {
        FeaturePreset::Essentials => "Core monitoring, audio, power, and session controls.",
        FeaturePreset::Balanced => "All supported configurable features except clipboard history and global shortcuts.",
        FeaturePreset::Everything => "Every configurable feature, including resource-intensive services.",
    }
}

impl FeaturePreset {
    /// The name of this preset.
    pub fn label(self) -> (label: &'static str)
        ensures
            label == preset_label(self),
    {
        match self {
            FeaturePreset::Essentials => "Essentials",
            FeaturePreset::Balanced => "Balanced",
            FeaturePreset::Everything => "Everything",
        }
    }

    /// What this preset enables, in words.
    pub fn description(self) -> (description: &'static str)
        ensures
            description == preset_description(self),
    {
        match self {
            FeaturePreset::Essentials => "Core monitoring, audio, power, and session controls.",
            FeaturePreset::Balanced => "All supported configurable features except clipboard history and global shortcuts.",
            FeaturePreset::Everything => "Every configurable feature, including resource-intensive services.",
        }
    }
}

/// Direction for moving one of the ordered panel sections.
#[derive(Debug, Clone, Copy, PartialEq, Eq, Structural)]
pub enum PanelMoveDirection {
    Up,
    Down,
}

/// Commands accepted from application entry surfaces such as the normal window and tray menu.
#[derive(Debug, Clone)]
pub enum ApplicationCommand {
    PresentWindow,
    RefreshCapabilities,
    QuickToggle(QuickToggleCommand),
    SetFeatureEnabled { feature_id: String, enabled: bool },
    ApplyPreset(FeaturePreset),
    UndoPreset,
    SetAppearance(AppearancePreference),
    SetAutostart(bool),
    SetPanelVisibility { section: PanelSection, visible: bool },
    MovePanelSection { section: PanelSection, direction: PanelMoveDirection },
    SetMonitorReadoutVisible { readout: MonitorReadout, visible: bool },
    MoveMonitorReadout { readout: MonitorReadout, direction: PanelMoveDirection },
    SetAlertEnabled { kind: AlertKind, enabled: bool },
    SetAlertThreshold { kind: AlertKind, threshold: AlertThreshold },
    ImportConfiguration(String),
    ExportConfiguration(String),
    Quit,
}

/// The static cost of a quick toggle: Kestrel's own toggles idle at a low
/// cost, the battery alerts also poll; the others only cost on interaction.
pub open spec fn toggle_cost(id: QuickToggleId) -> ResourceCost {
    match id {
        QuickToggleId::KeepAwake => ResourceCost { idle: CostLevel::Low, interaction: CostLevel::Low, polling: CostLevel::Zero },
        QuickToggleId::BatteryAlerts => ResourceCost { idle: CostLevel::Low, interaction: CostLevel::Low, polling: CostLevel::Low },
        _ => ResourceCost { idle: CostLevel::Zero, interaction: CostLevel::Moderate, polling: CostLevel::Zero },
    }
}

/// The static cost of a quick toggle.
pub fn quick_toggle_cost(id: QuickToggleId) -> (cost: ResourceCost)
    ensures
        cost == toggle_cost(id),
{
    match id {
        QuickToggleId::KeepAwake => ResourceCost::new(CostLevel::Low, CostLevel::Low, CostLevel::Zero),
        QuickToggleId::BatteryAlerts => ResourceCost::new(CostLevel::Low, CostLevel::Low, CostLevel::Low),
        _ => ResourceCost::new(CostLevel::Zero, CostLevel::Moderate, CostLevel::Zero),
    }
}

/// Whether `feature_id` is one of the quick toggles.
pub open spec fn is_quick_toggle_id(feature_id: Seq<char>) -> bool {
    exists|i: int| 0 <= i < QUICK_TOGGLE_COUNT && toggle_feature_id(toggle_at(i))@ == feature_id
}

/// Quick toggles start enabled until the user says otherwise; other
/// features start disabled.
pub fn default_enabled(feature_id: &str) -> (enabled: bool)
    ensures
        enabled == is_quick_toggle_id(feature_id@),
{
    let mut index: usize = 0;
    while index < QUICK_TOGGLE_COUNT
        invariant
            index <= QUICK_TOGGLE_COUNT,
            forall|i: int| 0 <= i < index ==> toggle_feature_id(toggle_at(i))@ != feature_id@,
        decreases QUICK_TOGGLE_COUNT - index,
    {
        let id = ALL_QUICK_TOGGLES[index];
        assert(id == toggle_at(index as int));
        if str_equal(id.feature_id(), feature_id) {
            return true;
        }
        index += 1;
    }
    false
}

/// Whether a preset enables a feature: the essentials are the monitor,
/// the mixer, keep-awake and the screen lock; the balanced preset is all but
/// clipboard history and global shortcuts; everything is everything.
pub open spec fn preset_enables(preset: FeaturePreset, feature_id: Seq<char>) -> bool {
    match preset {
        FeaturePreset::Essentials => feature_id == SYSTEM_MONITOR_ID@ || feature_id == crate::audio::FEATURE_ID@
            || feature_id == KEEP_AWAKE_ID@ || feature_id == SCREEN_LOCK_ID@,
        FeaturePreset::Balanced => feature_id != crate::clipboard::FEATURE_ID@ && feature_id != GLOBAL_SHORTCUTS_ID@,
        FeaturePreset::Everything => true,
    }
}

/// The presets are nested: everything enables every feature; the balanced
/// preset enables every feature but clipboard history and global shortcuts;
/// the essentials are exactly the monitor, the mixer, keep-awake and the
/// screen lock, all of which the balanced preset enables too.
pub proof fn lemma_preset_levels(feature_id: Seq<char>)
    ensures
        preset_enables(FeaturePreset::Everything, feature_id),
        !preset_enables(FeaturePreset::Balanced, "clipboard.history"@),
        !preset_enables(FeaturePreset::Balanced, "global.shortcuts"@),
        feature_id != "clipboard.history"@ && feature_id != "global.shortcuts"@ ==> preset_enables(
            FeaturePreset::Balanced,
            feature_id,
        ),
        preset_enables(FeaturePreset::Essentials, feature_id) <==> (feature_id == "system.monitor"@ || feature_id
            == "audio.mixer"@ || feature_id == "power.keep-awake"@ || feature_id == "session.lock"@),
        preset_enables(FeaturePreset::Essentials, feature_id) ==> preset_enables(FeaturePreset::Balanced, feature_id),
{
    reveal_strlit("clipboard.history");
    reveal_strlit("global.shortcuts");
    reveal_strlit("system.monitor");
    reveal_strlit("audio.mixer");
    reveal_strlit("power.keep-awake");
    reveal_strlit("session.lock");
    assert("system.monitor"@ != "clipboard.history"@ && "system.monitor"@ != "global.shortcuts"@) by {
        assert("system.monitor"@.len() != "clipboard.history"@.len());
        assert("system.monitor"@.len() != "global.shortcuts"@.len());
    }
    assert("audio.mixer"@ != "clipboard.history"@ && "audio.mixer"@ != "global.shortcuts"@) by {
        assert("audio.mixer"@.len() != "clipboard.history"@.len());
        assert("audio.mixer"@.len() != "global.shortcuts"@.len());
    }
    assert("power.keep-awake"@ != "clipboard.history"@ && "power.keep-awake"@ != "global.shortcuts"@) by {
        assert("power.keep-awake"@.len() != "clipboard.history"@.len());
        assert("power.keep-awake"@[0] != "global.shortcuts"@[0]);
    }
    assert("session.lock"@ != "clipboard.history"@ && "session.lock"@ != "global.shortcuts"@) by {
        assert("session.lock"@.len() != "clipboard.history"@.len());
        assert("session.lock"@.len() != "global.shortcuts"@.len());
    }
}

/// Applying a preset sets each configurable feature to what the preset
/// enables for it: the balanced preset leaves global shortcuts and clipboard
/// history disabled and enables every other configurable feature.
pub proof fn lemma_balanced_preset_applied(entries: FeatureEntries, configurable: Seq<&'static str>, feature_id: Seq<char>)
    requires
        crate::feature_map::sorted_keys(entries),
        exists|i: int| 0 <= i < configurable.len() && configurable[i]@ == feature_id,
    ensures
        lookup(preset_applied(entries, configurable, FeaturePreset::Balanced), feature_id) == Some(
            FeatureConfiguration { enabled: feature_id != "clipboard.history"@ && feature_id != "global.shortcuts"@ },
        ),
{
    lemma_preset_decides_only_governed(entries, configurable, FeaturePreset::Balanced, feature_id);
    lemma_preset_levels(feature_id);
}

/// Whether a preset enables a feature.
pub fn preset_enabled(preset: FeaturePreset, feature_id: &str) -> (enabled: bool)
    ensures
        enabled == preset_enables(preset, feature_id@),
{
    match preset {
        FeaturePreset::Essentials => str_equal(feature_id, SYSTEM_MONITOR_ID) || str_equal(feature_id, crate::audio::FEATURE_ID)
            || str_equal(feature_id, KEEP_AWAKE_ID) || str_equal(feature_id, SCREEN_LOCK_ID),
        FeaturePreset::Balanced => !str_equal(feature_id, crate::clipboard::FEATURE_ID) && !str_equal(feature_id, GLOBAL_SHORTCUTS_ID),
        FeaturePreset::Everything => true,
    }
}

/// The feature map after a preset sets each configurable feature in turn.
pub open spec fn preset_applied(entries: FeatureEntries, configurable: Seq<&'static str>, preset: FeaturePreset) -> FeatureEntries
    decreases configurable.len(),
{
    if configurable.len() == 0 {
        entries
    } else {
        let id = configurable.last()@;
        inserted(
            preset_applied(entries, configurable.drop_last(), preset),
            id,
            FeatureConfiguration { enabled: preset_enables(preset, id) },
        )
    }
}

/// A preset decides exactly the features it governs: afterwards each
/// configurable feature reads back as the preset enables it, and every other
/// feature keeps the choice it had, present or absent.
pub proof fn lemma_preset_decides_only_governed(
    entries: FeatureEntries,
    configurable: Seq<&'static str>,
    preset: FeaturePreset,
    probe: Seq<char>,
)
    requires
        crate::feature_map::sorted_keys(entries),
    ensures
        crate::feature_map::sorted_keys(preset_applied(entries, configurable, preset)),
        (exists|i: int| 0 <= i < configurable.len() && configurable[i]@ == probe) ==> lookup(
            preset_applied(entries, configurable, preset),
            probe,
        ) == Some(FeatureConfiguration { enabled: preset_enables(preset, probe) }),
        (forall|i: int| 0 <= i < configurable.len() ==> configurable[i]@ != probe) ==> lookup(
            preset_applied(entries, configurable, preset),
            probe,
        ) == lookup(entries, probe),
    decreases configurable.len(),
{
    if configurable.len() > 0 {
        let rest = configurable.drop_last();
        let id = configurable.last()@;
        lemma_preset_decides_only_governed(entries, rest, preset, probe);
        crate::feature_map::lemma_inserted_lookup(
            preset_applied(entries, rest, preset),
            id,
            FeatureConfiguration { enabled: preset_enables(preset, id) },
            probe,
        );
        if probe != id {
            if exists|i: int| 0 <= i < configurable.len() && configurable[i]@ == probe {
                let i = choose|i: int| 0 <= i < configurable.len() && configurable[i]@ == probe;
                assert(i < configurable.len() - 1);
                assert(rest[i]@ == probe);
            }
            if forall|i: int| 0 <= i < configurable.len() ==> configurable[i]@ != probe {
                assert forall|i: int| 0 <= i < rest.len() implies rest[i]@ != probe by {
                    assert(rest[i] == configurable[i]);
                }
            }
        } else {
            assert(configurable[configurable.len() - 1]@ == probe);
        }
    }
}

/// Applies a preset to the configurable features and returns the exact
/// prior feature map, so that the change can be undone.
pub fn apply_preset_features(
    configuration: &mut ApplicationConfiguration,
    configurable: &[&'static str],
    preset: FeaturePreset,
) -> (snapshot: FeatureConfigurationSnapshot)
    ensures
        snapshot.features@ == old(configuration).features@,
        final(configuration).features@ == preset_applied(old(configuration).features@, configurable@, preset),
        final(configuration).schema_version == old(configuration).schema_version,
        final(configuration).ui == old(configuration).ui,
        final(configuration).startup == old(configuration).startup,
        final(configuration).monitoring == old(configuration).monitoring,
{
    let snapshot = configuration.snapshot_features();
    let mut index: usize = 0;
    while index < configurable.len()
        invariant
            index <= configurable@.len(),
            configuration.features@ == preset_applied(old(configuration).features@, configurable@.subrange(0, index as int), preset),
            configuration.schema_version == old(configuration).schema_version,
            configuration.ui == old(configuration).ui,
            configuration.startup == old(configuration).startup,
            configuration.monitoring == old(configuration).monitoring,
        decreases configurable@.len() - index,
    {
        let feature_id = configurable[index];
        let enabled = preset_enabled(preset, feature_id);
        configuration.features.insert(owned(feature_id), FeatureConfiguration { enabled });
        proof {
            let next = configurable@.subrange(0, index + 1);
            assert(next.drop_last() =~= configurable@.subrange(0, index as int));
            assert(next.last() == feature_id);
        }
        index += 1;
    }
    assert(configurable@.subrange(0, configurable@.len() as int) =~= configurable@);
    snapshot
}

/// Restores the feature map a preset replaced.
pub fn undo_preset_features(configuration: &mut ApplicationConfiguration, snapshot: FeatureConfigurationSnapshot)
    ensures
        final(configuration).features@ == snapshot.features@,
        final(configuration).schema_version == old(configuration).schema_version,
        final(configuration).ui == old(configuration).ui,
        final(configuration).startup == old(configuration).startup,
{
    configuration.restore_feature_snapshot(snapshot);
}

/// A preset followed by its undo leaves the feature map exactly as it was:
/// the snapshot a preset returns is the prior map, and the undo restores the
/// snapshot.
pub proof fn lemma_preset_undo_restores(
    before: FeatureEntries,
    snapshot: FeatureConfigurationSnapshot,
    restored: FeatureEntries,
)
    requires
        snapshot.features@ == before,
        restored == snapshot.features@,
    ensures
        restored == before,
{
}

/// The first position of `section` in `sections`.
pub open spec fn section_position(sections: Seq<PanelSectionConfiguration>, section: PanelSection) -> Option<int>
    decreases sections.len(),
{
    if sections.len() == 0 {
        None
    } else if sections.last().section == section && section_position(sections.drop_last(), section) is None {
        Some(sections.len() - 1)
    } else {
        section_position(sections.drop_last(), section)
    }
}

/// The sections with the entries at `i` and `j` exchanged.
pub open spec fn swapped(sections: Seq<PanelSectionConfiguration>, i: int, j: int) -> Seq<PanelSectionConfiguration> {
    sections.update(i, sections[j]).update(j, sections[i])
}

/// The layout after moving `section` one place, if it can move that way.
pub open spec fn moved(sections: Seq<PanelSectionConfiguration>, section: PanelSection, direction: PanelMoveDirection) -> Option<Seq<PanelSectionConfiguration>> {
    match section_position(sections, section) {
        None => None,
        Some(i) => match direction {
            PanelMoveDirection::Up => if i == 0 {
                None
            } else {
                Some(swapped(sections, i, i - 1))
            },
            PanelMoveDirection::Down => if i + 1 < sections.len() {
                Some(swapped(sections, i, i + 1))
            } else {
                None
            },
        },
    }
}

pub(crate) proof fn lemma_position_is_first(sections: Seq<PanelSectionConfiguration>, section: PanelSection)
    ensures
        section_position(sections, section) matches Some(i) ==> 0 <= i < sections.len()
            && sections[i].section == section && forall|j: int| 0 <= j < i ==> sections[j].section != section,
        section_position(sections, section) is None ==> forall|j: int| 0 <= j < sections.len() ==> sections[j].section != section,
    decreases sections.len(),
{
    if sections.len() > 0 {
        let rest = sections.drop_last();
        lemma_position_is_first(rest, section);
        assert forall|j: int| 0 <= j < rest.len() implies rest[j] == sections[j] by {}
    }
}

pub(crate) proof fn lemma_position_of_first(sections: Seq<PanelSectionConfiguration>, section: PanelSection, i: int)
    requires
        0 <= i < sections.len(),
        sections[i].section == section,
        forall|j: int| 0 <= j < i ==> sections[j].section != section,
    ensures
        section_position(sections, section) == Some(i),
    decreases sections.len(),
{
    if i < sections.len() - 1 {
        lemma_position_of_first(sections.drop_last(), section, i);
    } else {
        lemma_position_is_first(sections.drop_last(), section);
    }
}

pub(crate) fn find_section(sections: &[PanelSectionConfiguration], section: PanelSection) -> (found: Option<usize>)
    ensures
        found matches Some(index) ==> index < sections@.len() && sections@[index as int].section == section
            && forall|j: int| 0 <= j < index ==> sections@[j].section != section,
        found is None ==> forall|j: int| 0 <= j < sections@.len() ==> sections@[j].section != section,
{
    let mut index: usize = 0;
    while index < sections.len()
        invariant
            index <= sections@.len(),
            forall|j: int| 0 <= j < index ==> sections@[j].section != section,
        decreases sections@.len() - index,
    {
        if sections[index].section == section {
            return Some(index);
        }
        index += 1;
    }
    None
}

/// Moves a panel section one place up or down; returns whether it moved.
pub fn move_panel_section(
    sections: &mut Vec<PanelSectionConfiguration>,
    section: PanelSection,
    direction: PanelMoveDirection,
) -> (changed: bool)
    ensures
        changed == moved(old(sections)@, section, direction) is Some,
        changed ==> final(sections)@ == moved(old(sections)@, section, direction)->0,
        !changed ==> final(sections)@ == old(sections)@,
{
    proof {
        lemma_position_is_first(sections@, section);
    }
    let index = match find_section(sections.as_slice(), section) {
        Some(index) => index,
        None => {
            return false;
        },
    };
    proof {
        lemma_position_of_first(sections@, section, index as int);
    }
    let target = match direction {
        PanelMoveDirection::Up => {
            if index == 0 {
                return false;
            }
            index - 1
        },
        PanelMoveDirection::Down => {
            if index >= sections.len() - 1 {
                return false;
            }
            index + 1
        },
    };
    let first = sections[index];
    let second = sections[target];
    sections.set(index, second);
    sections.set(target, first);
    assert(sections@ =~= swapped(old(sections)@, index as int, target as int));
    true
}

/// Moving a section up and then down again, in a layout where every section
/// occurs once, restores the layout.
pub proof fn lemma_move_up_then_down_restores(sections: Seq<PanelSectionConfiguration>, section: PanelSection)
    requires
        !has_duplicate_section(sections),
        moved(sections, section, PanelMoveDirection::Up) is Some,
    ensures
        moved(moved(sections, section, PanelMoveDirection::Up)->0, section, PanelMoveDirection::Down)
            == Some(sections),
{
    lemma_position_is_first(sections, section);
    let i = section_position(sections, section)->0;
    let up = swapped(sections, i, i - 1);
    assert forall|j: int| 0 <= j < i - 1 implies up[j].section != section by {
        assert(up[j] == sections[j]);
    }
    assert(up[i - 1] == sections[i]);
    lemma_position_of_first(up, section, i - 1);
    assert(swapped(up, i - 1, i) =~= sections);
}

/// Whether a feature is wanted under a feature map: as configured, else as
/// it starts by default.
pub open spec fn desired_enabled(features: FeatureEntries, feature_id: Seq<char>) -> bool {
    match lookup(features, feature_id) {
        Some(feature) => feature.enabled,
        None => is_quick_toggle_id(feature_id),
    }
}

/// A registration after a feature map is applied: a configurable feature
/// takes the enablement the map asks for; the others keep theirs.
pub open spec fn configured(registration: ServiceRegistration, features: FeatureEntries) -> ServiceRegistration {
    if registration.feature.configurable {
        with_enabled(registration, desired_enabled(features, registration.feature.id@))
    } else {
        registration
    }
}

/// Each registration after a feature map is applied and the enabled,
/// available features are started.
pub open spec fn applied_registrations(registrations: Seq<ServiceRegistration>, features: FeatureEntries) -> Seq<ServiceRegistration> {
    registrations.map_values(|registration: ServiceRegistration| started(configured(registration, features)))
}

proof fn lemma_position_of_unique(registrations: Seq<ServiceRegistration>, index: int)
    requires
        consistent_registrations(registrations),
        0 <= index < registrations.len(),
    ensures
        registered(registrations, registrations[index].feature.id@),
        position_of(registrations, registrations[index].feature.id@) == index,
{
    let id = registrations[index].feature.id@;
    assert(registrations[index].feature.id@ == id);
    let found = position_of(registrations, id);
    if found != index {
        if found < index {
            assert(registrations[found].feature.id@ != registrations[index].feature.id@);
        } else {
            assert(registrations[index].feature.id@ != registrations[found].feature.id@);
        }
    }
}

/// Applies a configuration's feature map to the configurable registrations,
/// then starts every enabled, available feature.
pub fn apply_feature_configuration<P>(registry: &mut FeatureRegistry<P>, configuration: &ApplicationConfiguration)
    ensures
        final(registry).registration_seq() == applied_registrations(old(registry).registration_seq(), configuration.features@),
        final(registry).probe_seq() == old(registry).probe_seq(),
{
    let ghost before = registry.registration_seq();
    let count = registry.registration_list().len();
    let mut index: usize = 0;
    while index < count
        invariant
            count == before.len(),
            index <= count,
            registry.probe_seq() == old(registry).probe_seq(),
            before == old(registry).registration_seq(),
            consistent_registrations(registry.registration_seq()),
            registry.registration_seq().len() == count,
            forall|j: int| 0 <= j < index ==> #[trigger] registry.registration_seq()[j]
                == configured(before[j], configuration.features@),
            forall|j: int| index <= j < count ==> #[trigger] registry.registration_seq()[j] == before[j],
        decreases count - index,
    {
        let list = registry.registration_list();
        let feature = &list[index].feature;
        let id = feature.id;
        if feature.configurable {
            let enabled = match configuration.features.get(id) {
                Some(found) => found.enabled,
                None => default_enabled(id),
            };
            proof {
                lemma_position_of_unique(registry.registration_seq(), index as int);
            }
            let ghost current = registry.registration_seq();
            let outcome = registry.set_enabled(id, enabled);
            proof {
                assert(outcome is Ok);
                assert forall|j: int| 0 <= j < count && j != index implies #[trigger] registry.registration_seq()[j] == current[j] by {}
            }
        }
        index += 1;
    }
    let ghost configured_seq = registry.registration_seq();
    registry.start_enabled();
    proof {
        assert(registry.registration_seq() =~= applied_registrations(before, configuration.features@));
    }
}

/// Refreshes every registration's report through its probe, in registration
/// order, then starts every enabled, available feature; a probe whose report
/// names another feature ends the refresh with that mismatch. What each probe
/// reports is its own: each registration ends holding its new report.
pub fn refresh_all_capabilities<P: crate::registry::CapabilityProbe>(registry: &mut FeatureRegistry<P>) -> (result: Result<
    (),
    RegistryError,
>)
    ensures
        final(registry).probe_seq() == old(registry).probe_seq(),
        final(registry).registration_seq().len() == old(registry).registration_seq().len(),
        consistent_registrations(final(registry).registration_seq()),
        result is Ok ==> forall|i: int| 0 <= i < old(registry).registration_seq().len() ==> {
            let registration = #[trigger] final(registry).registration_seq()[i];
            &&& registration.capability.feature_id@ == old(registry).registration_seq()[i].feature.id@
            &&& registration == started(refreshed(old(registry).registration_seq()[i], registration.capability))
        },
        result matches Err(error) ==> error matches RegistryError::FeatureIdMismatch { .. },
{
    let ghost before = registry.registration_seq();
    let ghost mut reports: Seq<CapabilityReport> = Seq::empty();
    let count = registry.registration_list().len();
    let mut index: usize = 0;
    while index < count
        invariant
            count == before.len(),
            index <= count,
            registry.probe_seq() == old(registry).probe_seq(),
            before == old(registry).registration_seq(),
            consistent_registrations(registry.registration_seq()),
            registry.registration_seq().len() == count,
            reports.len() == index,
            forall|j: int| 0 <= j < index ==> (#[trigger] reports[j]).feature_id@ == before[j].feature.id@
                && registry.registration_seq()[j] == refreshed(before[j], reports[j]),
            forall|j: int| index <= j < count ==> #[trigger] registry.registration_seq()[j] == before[j],
        decreases count - index,
    {
        let id = registry.registration_list()[index].feature.id;
        proof {
            lemma_position_of_unique(registry.registration_seq(), index as int);
        }
        let ghost current = registry.registration_seq();
        let refreshed_ok = match registry.refresh_capability(id) {
            Ok(_) => true,
            Err(error) => {
                return Err(error);
            },
        };
        proof {
            assert(refreshed_ok);
            let report = choose|report: CapabilityReport|
                report.feature_id@ == id@ && registry.registration_seq() == current.update(
                    position_of(current, id@),
                    #[trigger] refreshed(current[position_of(current, id@)], report),
                );
            assert forall|j: int| 0 <= j < count && j != index implies #[trigger] registry.registration_seq()[j] == current[j] by {}
            reports = reports.push(report);
            assert forall|j: int| 0 <= j < index + 1 implies (#[trigger] reports[j]).feature_id@ == before[j].feature.id@
                && registry.registration_seq()[j] == refreshed(before[j], reports[j]) by {
                if j < index {
                    assert(registry.registration_seq()[j] == current[j]);
                }
            }
        }
        index += 1;
    }
    let ghost refreshed_seq = registry.registration_seq();
    registry.start_enabled();
    proof {
        assert forall|i: int| 0 <= i < before.len() implies {
            let registration = #[trigger] registry.registration_seq()[i];
            &&& registration.capability.feature_id@ == before[i].feature.id@
            &&& registration == started(refreshed(before[i], registration.capability))
        } by {
            assert(reports[i].feature_id@ == before[i].feature.id@);
            assert(registry.registration_seq()[i] == started(refreshed_seq[i]));
            assert(registry.registration_seq()[i] == started(refreshed(before[i], reports[i])));
        }
    }
    Ok(())
}

/// The report of the always-available command surface.
pub fn command_surface_report() -> (report: CapabilityReport)
    ensures
        report.feature_id == COMMAND_SURFACE_ID,
        report.status@ == StatusModel::Supported,
        report.summary@ == "The normal Kestrel window is always available as the command surface."@,
        report.selected_backend matches Some(text) && text@ == "GTK/libadwaita normal window"@,
        report.remediation is None,
        report.evidence@.len() == 0,
        report.alternatives_considered@.len() == 0,
{
    CapabilityReport::new(
        COMMAND_SURFACE_ID,
        CapabilityStatus::Supported,
        "The normal Kestrel window is always available as the command surface.",
    ).with_selected_backend("GTK/libadwaita normal window")
}

/// Why global shortcuts are unsupported.
pub open spec fn shortcuts_reason() -> Seq<char> {
    "No portable global-shortcut adapter is registered yet."@
}

/// The report of the global shortcuts, which no adapter supports yet.
pub fn global_shortcuts_report() -> (report: CapabilityReport)
    ensures
        report.feature_id == GLOBAL_SHORTCUTS_ID,
        report.status@ == StatusModel::Unsupported(shortcuts_reason()),
        report.summary@ == "Global shortcuts are unavailable, but Kestrel remains usable from its normal window."@,
        report.remediation matches Some(text) && text@ == "Use the normal window or configure a desktop shortcut that launches Kestrel."@,
        report.selected_backend is None,
        report.evidence@.len() == 0,
        report.alternatives_considered@.len() == 0,
{
    CapabilityReport::new(
        GLOBAL_SHORTCUTS_ID,
        CapabilityStatus::Unsupported { reason: owned("No portable global-shortcut adapter is registered yet.") },
        "Global shortcuts are unavailable, but Kestrel remains usable from its normal window.",
    ).with_remediation("Use the normal window or configure a desktop shortcut that launches Kestrel.")
}

/// Whether a quick toggle starts enabled: as configured, else enabled.
pub open spec fn toggle_starts_enabled(configuration: ApplicationConfiguration, id: QuickToggleId) -> bool {
    match lookup(configuration.features@, toggle_feature_id(id)@) {
        Some(feature) => feature.enabled,
        None => true,
    }
}

/// One built-in feature and whether it starts enabled.
pub struct BuiltinFeature {
    pub feature: FeatureSpec,
    pub enabled: bool,
}

fn builtin(feature: FeatureSpec, enabled: bool) -> (entry: BuiltinFeature)
    ensures
        entry.feature == feature,
        entry.enabled == enabled,
{
    BuiltinFeature { feature, enabled }
}

/// The built-in features in registration order: the command surface (always
/// enabled, not configurable), the tray entry (enabled when its capability is
/// available, not configurable), the monitor, the mixer, clipboard history
/// and global shortcuts (each as configured), then every quick toggle (as
/// configured, else enabled).
pub fn builtin_features(configuration: &ApplicationConfiguration, tray_status: CapabilityStatus) -> (features: Vec<BuiltinFeature>)
    ensures
        features@.len() == 6 + QUICK_TOGGLE_COUNT,
        features@[0].feature.id == COMMAND_SURFACE_ID && features@[0].enabled && !features@[0].feature.configurable
            && features@[0].feature.cost == (ResourceCost { idle: CostLevel::Zero, interaction: CostLevel::Low, polling: CostLevel::Zero }),
        features@[1].feature.id == crate::status_notifier::FEATURE_ID && features@[1].enabled == status_available(tray_status)
            && !features@[1].feature.configurable && features@[1].feature.capability@ == tray_status@
            && features@[1].feature.cost == (ResourceCost { idle: CostLevel::Low, interaction: CostLevel::Moderate, polling: CostLevel::Zero }),
        features@[2].feature.id == SYSTEM_MONITOR_ID && features@[2].enabled == enabled_in(configuration.features@, SYSTEM_MONITOR_ID@)
            && features@[2].feature.configurable
            && features@[2].feature.cost == (ResourceCost { idle: CostLevel::Low, interaction: CostLevel::Low, polling: CostLevel::Moderate }),
        features@[3].feature.id == crate::audio::FEATURE_ID && features@[3].enabled == enabled_in(configuration.features@, crate::audio::FEATURE_ID@)
            && features@[3].feature.configurable
            && features@[3].feature.cost == (ResourceCost { idle: CostLevel::Zero, interaction: CostLevel::Moderate, polling: CostLevel::Zero }),
        features@[4].feature.id == crate::clipboard::FEATURE_ID && features@[4].enabled == enabled_in(configuration.features@, crate::clipboard::FEATURE_ID@)
            && features@[4].feature.configurable
            && features@[4].feature.cost == (ResourceCost { idle: CostLevel::Moderate, interaction: CostLevel::Moderate, polling: CostLevel::Moderate }),
        features@[5].feature.id == GLOBAL_SHORTCUTS_ID && features@[5].enabled == enabled_in(configuration.features@, GLOBAL_SHORTCUTS_ID@)
            && features@[5].feature.configurable && features@[5].feature.capability@ == StatusModel::Unsupported(shortcuts_reason())
            && features@[5].feature.cost == (ResourceCost { idle: CostLevel::Zero, interaction: CostLevel::Moderate, polling: CostLevel::Zero }),
        features@[0].feature.label@ == "Command surface"@,
        features@[1].feature.label@ == "Tray integration"@,
        features@[2].feature.label@ == "System monitor"@,
        features@[3].feature.label@ == "Audio mixer"@,
        features@[4].feature.label@ == "Clipboard history"@,
        features@[5].feature.label@ == "Global shortcuts"@,
        forall|i: int| 0 <= i < QUICK_TOGGLE_COUNT ==> {
            let entry = #[trigger] features@[6 + i];
            &&& entry.feature.id == toggle_feature_id(toggle_at(i))
            &&& entry.feature.label == toggle_label(toggle_at(i))
            &&& entry.feature.configurable
            &&& entry.feature.cost == toggle_cost(toggle_at(i))
            &&& entry.feature.capability@ == StatusModel::Supported
            &&& entry.enabled == toggle_starts_enabled(*configuration, toggle_at(i))
        },
{
    let mut features: Vec<BuiltinFeature> = Vec::new();
    features.push(builtin(
        FeatureSpec::new(COMMAND_SURFACE_ID, "Command surface", CapabilityStatus::Supported)
            .with_configurable(false)
            .with_cost(ResourceCost::new(CostLevel::Zero, CostLevel::Low, CostLevel::Zero)),
        true,
    ));
    let tray_enabled = is_available(&tray_status);
    features.push(builtin(
        FeatureSpec::new(crate::status_notifier::FEATURE_ID, "Tray integration", tray_status)
            .with_configurable(false)
            .with_cost(ResourceCost::new(CostLevel::Low, CostLevel::Moderate, CostLevel::Zero)),
        tray_enabled,
    ));
    features.push(builtin(
        FeatureSpec::new(SYSTEM_MONITOR_ID, "System monitor", CapabilityStatus::Supported)
            .with_cost(ResourceCost::new(CostLevel::Low, CostLevel::Low, CostLevel::Moderate)),
        configuration.feature_enabled(SYSTEM_MONITOR_ID),
    ));
    features.push(builtin(
        FeatureSpec::new(crate::audio::FEATURE_ID, "Audio mixer", CapabilityStatus::Supported)
            .with_cost(ResourceCost::new(CostLevel::Zero, CostLevel::Moderate, CostLevel::Zero)),
        configuration.feature_enabled(crate::audio::FEATURE_ID),
    ));
    features.push(builtin(
        FeatureSpec::new(crate::clipboard::FEATURE_ID, "Clipboard history", CapabilityStatus::Supported)
            .with_cost(ResourceCost::new(CostLevel::Moderate, CostLevel::Moderate, CostLevel::Moderate)),
        configuration.feature_enabled(crate::clipboard::FEATURE_ID),
    ));
    features.push(builtin(
        FeatureSpec::new(
            GLOBAL_SHORTCUTS_ID,
            "Global shortcuts",
            CapabilityStatus::Unsupported { reason: owned("No portable global-shortcut adapter is registered yet.") },
        ).with_cost(ResourceCost::new(CostLevel::Zero, CostLevel::Moderate, CostLevel::Zero)),
        configuration.feature_enabled(GLOBAL_SHORTCUTS_ID),
    ));
    assert(features@[0].feature.id == COMMAND_SURFACE_ID);
    assert(features@[1].feature.id == crate::status_notifier::FEATURE_ID);
    assert(features@[2].feature.id == SYSTEM_MONITOR_ID);
    assert(features@[3].feature.id == crate::audio::FEATURE_ID);
    assert(features@[4].feature.id == crate::clipboard::FEATURE_ID);
    assert(features@[5].feature.id == GLOBAL_SHORTCUTS_ID);
    let ghost fixed = features@;
    let mut index: usize = 0;
    while index < QUICK_TOGGLE_COUNT
        invariant
            index <= QUICK_TOGGLE_COUNT,
            features@.len() == 6 + index,
            forall|i: int| 0 <= i < 6 ==> features@[i] == fixed[i],
            forall|i: int| 0 <= i < index ==> {
                let entry = #[trigger] features@[6 + i];
                &&& entry.feature.id == toggle_feature_id(toggle_at(i))
                &&& entry.feature.label == toggle_label(toggle_at(i))
                &&& entry.feature.configurable
                &&& entry.feature.cost == toggle_cost(toggle_at(i))
                &&& entry.feature.capability@ == StatusModel::Supported
                &&& entry.enabled == toggle_starts_enabled(*configuration, toggle_at(i))
            },
        decreases QUICK_TOGGLE_COUNT - index,
    {
        let id = ALL_QUICK_TOGGLES[index];
        assert(id == toggle_at(index as int));
        let enabled = match configuration.features.get(id.feature_id()) {
            Some(feature) => feature.enabled,
            None => true,
        };
        features.push(builtin(
            FeatureSpec::new(id.feature_id(), id.label(), CapabilityStatus::Supported).with_cost(quick_toggle_cost(id)),
            enabled,
        ));
        assert(features@[6 + index as int].feature.id == toggle_feature_id(toggle_at(index as int)));
        index += 1;
    }
    features
}

/// Whether the feature `feature_id` is registered and running.
pub open spec fn runs(registrations: Seq<ServiceRegistration>, feature_id: Seq<char>) -> bool {
    exists|i: int| 0 <= i < registrations.len() && (#[trigger] registrations[i]).feature.id@ == feature_id
        && registrations[i].running
}

/// The first `count` quick toggles, in presentation order, whose features
/// are running.
pub open spec fn running_toggles_among(registrations: Seq<ServiceRegistration>, count: nat) -> Seq<QuickToggleId>
    decreases count,
{
    if count == 0 {
        Seq::empty()
    } else {
        let rest = running_toggles_among(registrations, (count - 1) as nat);
        let id = toggle_at(count - 1);
        if runs(registrations, toggle_feature_id(id)@) {
            rest.push(id)
        } else {
            rest
        }
    }
}

/// The quick toggles whose features are running, in presentation order:
/// those whose state is observed.
pub fn running_toggles<P>(registry: &FeatureRegistry<P>) -> (ids: Vec<QuickToggleId>)
    ensures
        ids@ == running_toggles_among(registry.registration_seq(), QUICK_TOGGLE_COUNT as nat),
{
    let mut ids: Vec<QuickToggleId> = Vec::new();
    let mut index: usize = 0;
    while index < QUICK_TOGGLE_COUNT
        invariant
            index <= QUICK_TOGGLE_COUNT,
            ids@ == running_toggles_among(registry.registration_seq(), index as nat),
        decreases QUICK_TOGGLE_COUNT - index,
    {
        let id = ALL_QUICK_TOGGLES[index];
        assert(id == toggle_at(index as int));
        if registry.is_running(id.feature_id()) {
            ids.push(id);
        }
        index += 1;
    }
    ids
}

} // verus!
