//! Versioned, portable application configuration and its validation rules.

use vstd::prelude::*;

use crate::feature_map::{
    FeatureConfiguration, FeatureEntries, FeatureMap, inserted, lookup, sorted_keys,
    stored_entries,
};
use crate::monitor_config::{MonitorConfiguration, default_monitoring};
use crate::text::{chars_of, owned};

verus! {

/// The current version of Kestrel's non-sensitive configuration schema.
pub const CURRENT_CONFIGURATION_SCHEMA_VERSION: u32 = 3;

/// The user's preferred appearance mode.
#[derive(Debug, Clone, Copy, PartialEq, Eq, Structural)]
pub enum AppearancePreference {
    System,
    Light,
    Dark,
}

impl Default for AppearancePreference {
    fn default() -> (appearance: Self)
        ensures
            appearance == AppearancePreference::System,
    {
        AppearancePreference::System
    }
}

/// A section that can be shown in the application panel.
#[derive(Debug, Clone, Copy, PartialEq, Eq, Structural)]
pub enum PanelSection {
    QuickControls,
    FeatureHub,
    Monitoring,
}

/// Every panel section, in default order.
pub const PANEL_SECTIONS: [PanelSection; 3] = [PanelSection::QuickControls, PanelSection::FeatureHub, PanelSection::Monitoring];

/// Visibility and ordering for one panel section.
#[derive(Debug, Clone, Copy, PartialEq, Eq, Structural)]
pub struct PanelSectionConfiguration {
    pub section: PanelSection,
    pub visible: bool,
}

/// The default panel layout: every section, visible, in default order.
pub open spec fn default_sections() -> Seq<PanelSectionConfiguration> {
    seq![
        PanelSectionConfiguration { section: PanelSection::QuickControls, visible: true },
        PanelSectionConfiguration { section: PanelSection::FeatureHub, visible: true },
        PanelSectionConfiguration { section: PanelSection::Monitoring, visible: true },
    ]
}

/// Builds the default panel layout.
pub fn default_panel_sections() -> (sections: Vec<PanelSectionConfiguration>)
    ensures
        sections@ == default_sections(),
{
    let sections = vec![
        PanelSectionConfiguration { section: PanelSection::QuickControls, visible: true },
        PanelSectionConfiguration { section: PanelSection::FeatureHub, visible: true },
        PanelSectionConfiguration { section: PanelSection::Monitoring, visible: true },
    ];
    assert(sections@ =~= default_sections());
    sections
}

/// Presentation preferences owned by the application.
#[derive(Debug, Clone, PartialEq, Eq)]
pub struct UiConfiguration {
    pub appearance: AppearancePreference,
    pub panel_sections: Vec<PanelSectionConfiguration>,
}

impl Default for UiConfiguration {
    fn default() -> (ui: Self)
        ensures
            ui.appearance == AppearancePreference::System,
            ui.panel_sections@ == default_sections(),
    {
        UiConfiguration {
            appearance: AppearancePreference::System,
            panel_sections: default_panel_sections(),
        }
    }
}

/// Whether some panel section occurs twice in `sections`.
pub open spec fn has_duplicate_section(sections: Seq<PanelSectionConfiguration>) -> bool {
    exists|i: int, j: int|
        0 <= i < j < sections.len() && sections[i].section == sections[j].section
}

/// Whether `section` occurs in `sections`.
pub open spec fn has_section(sections: Seq<PanelSectionConfiguration>, section: PanelSection) -> bool {
    exists|i: int| 0 <= i < sections.len() && sections[i].section == section
}

/// The outcome of validating a panel layout: no section twice, and exactly
/// the three sections.
pub open spec fn panel_validation(sections: Seq<PanelSectionConfiguration>) -> Result<(), ConfigurationError> {
    if has_duplicate_section(sections) {
        Err(ConfigurationError::DuplicatePanelSection)
    } else if sections.len() != 3 || !has_section(sections, PanelSection::QuickControls)
        || !has_section(sections, PanelSection::FeatureHub) || !has_section(sections, PanelSection::Monitoring) {
        Err(ConfigurationError::MissingPanelSection)
    } else {
        Ok(())
    }
}

impl UiConfiguration {
    /// A copy of this configuration with equal contents.
    pub fn duplicate(&self) -> (copy: Self)
        ensures
            copy.appearance == self.appearance,
            copy.panel_sections@ == self.panel_sections@,
    {
        UiConfiguration { appearance: self.appearance, panel_sections: self.panel_sections.clone() }
    }

    /// Validates that panel sections are complete and unambiguous.
    pub fn validate(&self) -> (result: Result<(), ConfigurationError>)
        ensures
            result == panel_validation(self.panel_sections@),
    {
        let sections = self.panel_sections.as_slice();
        let mut quick_controls = false;
        let mut feature_hub = false;
        let mut monitoring = false;
        let mut index: usize = 0;
        while index < sections.len()
            invariant
                sections@ == self.panel_sections@,
                index <= sections@.len(),
                quick_controls == has_section(sections@.subrange(0, index as int), PanelSection::QuickControls),
                feature_hub == has_section(sections@.subrange(0, index as int), PanelSection::FeatureHub),
                monitoring == has_section(sections@.subrange(0, index as int), PanelSection::Monitoring),
                !has_duplicate_section(sections@.subrange(0, index as int)),
            decreases sections@.len() - index,
        {
            let ghost before = sections@.subrange(0, index as int);
            let ghost after = sections@.subrange(0, index + 1);
            assert(after =~= before.push(sections@[index as int]));
            let entry = sections[index];
            let repeated = match entry.section {
                PanelSection::QuickControls => quick_controls,
                PanelSection::FeatureHub => feature_hub,
                PanelSection::Monitoring => monitoring,
            };
            if repeated {
                proof {
                    let i = choose|i: int| 0 <= i < before.len() && before[i].section == entry.section;
                    assert(sections@[i].section == sections@[index as int].section);
                    assert(0 <= i < index < sections@.len());
                    assert(has_duplicate_section(sections@));
                }
                return Err(ConfigurationError::DuplicatePanelSection);
            }
            match entry.section {
                PanelSection::QuickControls => quick_controls = true,
                PanelSection::FeatureHub => feature_hub = true,
                PanelSection::Monitoring => monitoring = true,
            }
            proof {
                assert(has_section(after, entry.section)) by {
                    assert(after[index as int] == entry);
                }
                assert forall|s: PanelSection| s != entry.section implies (has_section(after, s)
                    == has_section(before, s)) by {
                    if has_section(after, s) {
                        let i = choose|i: int| 0 <= i < after.len() && after[i].section == s;
                        assert(before[i].section == s);
                    }
                    if has_section(before, s) {
                        let i = choose|i: int| 0 <= i < before.len() && before[i].section == s;
                        assert(after[i].section == s);
                    }
                }
                assert(!has_duplicate_section(after)) by {
                    if has_duplicate_section(after) {
                        let (i, j) = choose|i: int, j: int|
                            0 <= i < j < after.len() && after[i].section == after[j].section;
                        if j < index {
                            assert(before[i].section == before[j].section);
                        } else {
                            assert(before[i].section == entry.section);
                        }
                    }
                }
            }
            index += 1;
        }
        assert(sections@.subrange(0, sections@.len() as int) =~= sections@);
        if sections.len() != 3 || !quick_controls || !feature_hub || !monitoring {
            Err(ConfigurationError::MissingPanelSection)
        } else {
            Ok(())
        }
    }
}

/// Startup preferences owned by the application.
#[derive(Debug, Clone, Copy, PartialEq, Eq, Structural)]
pub struct StartupConfiguration {
    pub autostart: bool,
}

impl Default for StartupConfiguration {
    fn default() -> (startup: Self)
        ensures
            !startup.autostart,
    {
        StartupConfiguration { autostart: false }
    }
}

/// An exact, reversible copy of the complete feature preference map.
#[derive(Debug, PartialEq, Eq, Default)]
pub struct FeatureConfigurationSnapshot {
    pub features: FeatureMap,
}

/// An invalid portable configuration contract.
#[derive(Debug, Clone)]
pub enum ConfigurationError {
    UnsupportedSchemaVersion { version: u32 },
    InvalidFeatureId { feature_id: String },
    DuplicatePanelSection,
    MissingPanelSection,
}

/// The mathematical content of a configuration error.
pub enum ConfigurationErrorModel {
    UnsupportedSchemaVersion(u32),
    InvalidFeatureId(Seq<char>),
    DuplicatePanelSection,
    MissingPanelSection,
}

impl View for ConfigurationError {
    type V = ConfigurationErrorModel;

    open spec fn view(&self) -> ConfigurationErrorModel {
        match self {
            ConfigurationError::UnsupportedSchemaVersion { version } => ConfigurationErrorModel::UnsupportedSchemaVersion(*version),
            ConfigurationError::InvalidFeatureId { feature_id } => ConfigurationErrorModel::InvalidFeatureId(feature_id@),
            ConfigurationError::DuplicatePanelSection => ConfigurationErrorModel::DuplicatePanelSection,
            ConfigurationError::MissingPanelSection => ConfigurationErrorModel::MissingPanelSection,
        }
    }
}

/// The content of a validation outcome.
pub open spec fn outcome_view(result: Result<(), ConfigurationError>) -> Result<(), ConfigurationErrorModel> {
    match result {
        Ok(()) => Ok(()),
        Err(error) => Err(error@),
    }
}

impl PartialEq for ConfigurationError {
    fn eq(&self, other: &Self) -> (equal: bool) {
        match self {
            ConfigurationError::UnsupportedSchemaVersion { version } => match other {
                ConfigurationError::UnsupportedSchemaVersion { version: theirs } => *version == *theirs,
                _ => false,
            },
            ConfigurationError::InvalidFeatureId { feature_id } => match other {
                ConfigurationError::InvalidFeatureId { feature_id: theirs } => feature_id.eq(theirs),
                _ => false,
            },
            ConfigurationError::DuplicatePanelSection => matches!(other, ConfigurationError::DuplicatePanelSection),
            ConfigurationError::MissingPanelSection => matches!(other, ConfigurationError::MissingPanelSection),
        }
    }
}

impl vstd::std_specs::cmp::PartialEqSpecImpl for ConfigurationError {
    open spec fn obeys_eq_spec() -> bool {
        true
    }

    open spec fn eq_spec(&self, other: &Self) -> bool {
        self@ == other@
    }
}

impl Eq for ConfigurationError {

}

/// A character allowed inside one dot-separated segment of a feature ID.
pub open spec fn feature_id_char(character: char) -> bool {
    ('a' <= character && character <= 'z') || ('A' <= character && character <= 'Z') || ('0'
        <= character && character <= '9') || character == '_' || character == '-'
}

/// A stable feature ID: one or more non-empty segments, separated by single
/// dots, each made of ASCII letters, digits, `_` and `-`.
pub open spec fn valid_feature_id(id: Seq<char>) -> bool {
    &&& id.len() > 0
    &&& forall|i: int| 0 <= i < id.len() ==> (id[i] == '.' || feature_id_char(#[trigger] id[i]))
    &&& id[0] != '.'
    &&& id[id.len() - 1] != '.'
    &&& forall|i: int| 0 <= i < id.len() - 1 && id[i] == '.' ==> #[trigger] id[i + 1] != '.'
}

fn is_feature_id_char(character: char) -> (allowed: bool)
    ensures
        allowed == feature_id_char(character),
{
    ('a' <= character && character <= 'z') || ('A' <= character && character <= 'Z') || ('0'
        <= character && character <= '9') || character == '_' || character == '-'
}

/// Whether `id` is a stable feature ID.
pub fn is_valid_feature_id(id: &str) -> (valid: bool)
    ensures
        valid == valid_feature_id(id@),
{
    let characters = chars_of(id);
    let length = characters.len();
    if length == 0 || characters[0] == '.' || characters[length - 1] == '.' {
        return false;
    }
    let mut index: usize = 0;
    while index < length
        invariant
            characters@ == id@,
            length == id@.len(),
            length > 0,
            index <= length,
            forall|i: int| 0 <= i < index ==> (id@[i] == '.' || feature_id_char(#[trigger] id@[i])),
            forall|i: int| 0 <= i < index && i < length - 1 && id@[i] == '.' ==> #[trigger] id@[i + 1] != '.',
        decreases length - index,
    {
        let character = characters[index];
        if character != '.' && !is_feature_id_char(character) {
            return false;
        }
        if character == '.' && index + 1 < length && characters[index + 1] == '.' {
            return false;
        }
        index += 1;
    }
    true
}

/// Validates a stable namespaced identifier without depending on a UI or platform.
pub fn validate_feature_id(feature_id: &str) -> (result: Result<(), ConfigurationError>)
    ensures
        valid_feature_id(feature_id@) ==> result is Ok,
        !valid_feature_id(feature_id@) ==> outcome_view(result) == Err::<(), ConfigurationErrorModel>(
            ConfigurationErrorModel::InvalidFeatureId(feature_id@),
        ),
{
    if is_valid_feature_id(feature_id) {
        Ok(())
    } else {
        Err(ConfigurationError::InvalidFeatureId { feature_id: owned(feature_id) })
    }
}

/// The first key, in key order, that is not a stable feature ID.
pub open spec fn first_invalid_key(entries: FeatureEntries) -> Option<Seq<char>>
    decreases entries.len(),
{
    if entries.len() == 0 {
        None
    } else if !valid_feature_id(entries[0].0) {
        Some(entries[0].0)
    } else {
        first_invalid_key(entries.drop_first())
    }
}

/// Versioned, portable application configuration.
#[derive(Debug, PartialEq, Eq)]
pub struct ApplicationConfiguration {
    /// The schema version from which the configuration was loaded.
    pub schema_version: u32,
    /// Preferences keyed by stable, namespaced feature IDs.
    pub features: FeatureMap,
    pub ui: UiConfiguration,
    pub startup: StartupConfiguration,
    pub monitoring: MonitorConfiguration,
}

/// Whether `configuration` holds the defaults: current schema, no feature
/// preferences, system appearance, the default panel layout, no autostart,
/// the default monitoring preferences.
pub open spec fn is_default_configuration(configuration: ApplicationConfiguration) -> bool {
    &&& configuration.schema_version == CURRENT_CONFIGURATION_SCHEMA_VERSION
    &&& configuration.features@.len() == 0
    &&& configuration.ui.appearance == AppearancePreference::System
    &&& configuration.ui.panel_sections@ == default_sections()
    &&& !configuration.startup.autostart
    &&& configuration.monitoring@ == default_monitoring()
}

/// Whether the feature stored under `id` in `entries` is enabled.
pub open spec fn enabled_in(entries: FeatureEntries, id: Seq<char>) -> bool {
    lookup(entries, id) matches Some(configuration) && configuration.enabled
}

/// The outcome of validating a whole configuration.
pub open spec fn configuration_validation(configuration: ApplicationConfiguration) -> Result<(), ConfigurationErrorModel> {
    if configuration.schema_version != CURRENT_CONFIGURATION_SCHEMA_VERSION {
        Err(ConfigurationErrorModel::UnsupportedSchemaVersion(configuration.schema_version))
    } else if first_invalid_key(configuration.features@) is Some {
        Err(ConfigurationErrorModel::InvalidFeatureId(first_invalid_key(configuration.features@)->0))
    } else {
        outcome_view(panel_validation(configuration.ui.panel_sections@))
    }
}

impl Default for ApplicationConfiguration {
    fn default() -> (configuration: Self)
        ensures
            is_default_configuration(configuration),
    {
        ApplicationConfiguration {
            schema_version: CURRENT_CONFIGURATION_SCHEMA_VERSION,
            features: FeatureMap::new(),
            ui: UiConfiguration::default(),
            startup: StartupConfiguration::default(),
            monitoring: MonitorConfiguration::default(),
        }
    }
}

impl ApplicationConfiguration {
    /// A copy of this configuration with equal contents.
    pub fn duplicate(&self) -> (copy: Self)
        ensures
            copy.schema_version == self.schema_version,
            copy.features@ == self.features@,
            copy.ui.appearance == self.ui.appearance,
            copy.ui.panel_sections@ == self.ui.panel_sections@,
            copy.startup == self.startup,
            copy.monitoring@ == self.monitoring@,
    {
        ApplicationConfiguration {
            schema_version: self.schema_version,
            features: self.features.duplicate(),
            ui: self.ui.duplicate(),
            startup: self.startup,
            monitoring: self.monitoring.duplicate(),
        }
    }

    /// Returns whether a known feature should be started by default.
    pub fn feature_enabled(&self, feature_id: &str) -> (enabled: bool)
        ensures
            enabled == enabled_in(self.features@, feature_id@),
    {
        match self.features.get(feature_id) {
            Some(configuration) => configuration.enabled,
            None => false,
        }
    }

    /// Records a user's enablement preference for a stable feature ID.
    pub fn set_feature_enabled(&mut self, feature_id: &str, enabled: bool) -> (result: Result<
        (),
        ConfigurationError,
    >)
        ensures
            valid_feature_id(feature_id@) ==> result is Ok && final(self).features@ == inserted(
                old(self).features@,
                feature_id@,
                FeatureConfiguration { enabled },
            ),
            !valid_feature_id(feature_id@) ==> outcome_view(result) == Err::<(), ConfigurationErrorModel>(
                ConfigurationErrorModel::InvalidFeatureId(feature_id@),
            ) && final(self).features@ == old(self).features@,
            final(self).schema_version == old(self).schema_version,
            final(self).ui == old(self).ui,
            final(self).startup == old(self).startup,
            final(self).monitoring == old(self).monitoring,
    {
        match validate_feature_id(feature_id) {
            Ok(()) => {
                self.features.insert(owned(feature_id), FeatureConfiguration { enabled });
                Ok(())
            },
            Err(error) => Err(error),
        }
    }

    /// Captures every feature entry, including the distinction between absent
    /// and disabled entries.
    pub fn snapshot_features(&self) -> (snapshot: FeatureConfigurationSnapshot)
        ensures
            snapshot.features@ == self.features@,
    {
        FeatureConfigurationSnapshot { features: self.features.duplicate() }
    }

    /// Restores a previously captured feature map exactly.
    pub fn restore_feature_snapshot(&mut self, snapshot: FeatureConfigurationSnapshot)
        ensures
            final(self).features@ == snapshot.features@,
            final(self).schema_version == old(self).schema_version,
            final(self).ui == old(self).ui,
            final(self).startup == old(self).startup,
            final(self).monitoring == old(self).monitoring,
    {
        self.features = snapshot.features;
    }

    /// Alias for callers that use the noun form of the snapshot operation.
    pub fn feature_configuration_snapshot(&self) -> (snapshot: FeatureConfigurationSnapshot)
        ensures
            snapshot.features@ == self.features@,
    {
        self.snapshot_features()
    }

    /// Restores a snapshot by reference, retaining the reusable snapshot.
    pub fn restore_features(&mut self, snapshot: &FeatureConfigurationSnapshot)
        ensures
            final(self).features@ == snapshot.features@,
            final(self).schema_version == old(self).schema_version,
            final(self).ui == old(self).ui,
            final(self).startup == old(self).startup,
            final(self).monitoring == old(self).monitoring,
    {
        self.features = snapshot.features.duplicate();
    }

    /// Validates schema, stable feature identifiers, and panel section shape.
    pub fn validate(&self) -> (result: Result<(), ConfigurationError>)
        ensures
            outcome_view(result) == configuration_validation(*self),
    {
        if self.schema_version != CURRENT_CONFIGURATION_SCHEMA_VERSION {
            return Err(ConfigurationError::UnsupportedSchemaVersion { version: self.schema_version });
        }
        let entries = self.features.entries();
        let ghost all = self.features@;
        let mut index: usize = 0;
        assert(all.subrange(0, all.len() as int) =~= all);
        while index < entries.len()
            invariant
                stored_entries(entries@) == all,
                all == self.features@,
                self.schema_version == CURRENT_CONFIGURATION_SCHEMA_VERSION,
                index <= all.len(),
                first_invalid_key(all) == first_invalid_key(all.subrange(index as int, all.len() as int)),
            decreases all.len() - index,
        {
            let ghost rest = all.subrange(index as int, all.len() as int);
            assert(rest.drop_first() =~= all.subrange(index + 1, all.len() as int));
            assert(rest[0] == all[index as int]);
            assert(all[index as int].0 == entries@[index as int].0@);
            let outcome = validate_feature_id(entries[index].0.as_str());
            match outcome {
                Ok(()) => {},
                Err(error) => {
                    assert(!valid_feature_id(rest[0].0));
                    assert(first_invalid_key(rest) == Some(rest[0].0));
                    assert(error@ == ConfigurationErrorModel::InvalidFeatureId(rest[0].0));
                    return Err(error);
                },
            }
            index += 1;
        }
        self.ui.validate()
    }
}

} // verus!
