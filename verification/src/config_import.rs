//! Importing and migrating portable configuration documents, setting by setting.

use vstd::prelude::*;

use crate::configuration::{
    AppearancePreference, ApplicationConfiguration, CURRENT_CONFIGURATION_SCHEMA_VERSION,
    ConfigurationError, PanelSection, PanelSectionConfiguration, StartupConfiguration,
    default_sections, has_section, is_default_configuration, valid_feature_id,
    validate_feature_id,
};
use crate::alerts::AlertKind;
use crate::feature_map::{FeatureConfiguration, FeatureEntries, inserted, lookup};
use crate::monitor_config::{
    AlertRuleConfiguration, MAX_ALERT_COOLDOWN_SECONDS, MAX_ALERT_SUSTAIN_SAMPLES, MIN_ALERT_SUSTAIN_SAMPLES,
    MonitorReadout, MonitorSettings, default_monitoring, rule_of, with_rule,
};
use crate::monitor_service::{MAX_HISTORY_SAMPLES, MAX_REFRESH_INTERVAL_MILLIS, MIN_REFRESH_INTERVAL_MILLIS};
use crate::text::{decimal, decimal_text, joined, owned, str_equal};
use crate::toml_document::{
    TomlValue, appearance_value, bool_value, feature_value, get, panel_entry_value,
    parse_document, parsed_toml, read_appearance, read_bool, read_feature, read_panel_entry,
    read_readout, read_threshold, read_unsigned, readout_value, table_get, threshold_value, unsigned_value,
};

verus! {

/// How `std` writes a string through `Debug`: quoted, with escapes.
pub uninterp spec fn debug_quoted(text: Seq<char>) -> Seq<char>;

/// Quotes a string the way `Debug` does.
///
/// Trusted: calls `format!("{:?}", text)`, whose output depends on the text
/// alone; what the escapes are is not stated.
#[verifier::external_body]
pub(crate) fn debug_quote(text: &str) -> (quoted: String)
    ensures
        quoted@ == debug_quoted(text@),
{
    format!("{text:?}")
}

/// A malformed setting that disabled only its own preference.
#[derive(Debug, Clone, PartialEq, Eq)]
pub struct ConfigurationWarning {
    /// A dotted portable-document location, such as `features.audio.mixer`.
    pub feature_id: String,
    pub reason: String,
}

impl View for ConfigurationWarning {
    type V = (Seq<char>, Seq<char>);

    open spec fn view(&self) -> (Seq<char>, Seq<char>) {
        (self.feature_id@, self.reason@)
    }
}

/// Configuration loaded from a document, with isolated setting-level diagnostics.
#[derive(Debug, Default, PartialEq, Eq)]
pub struct LoadedConfiguration {
    pub configuration: ApplicationConfiguration,
    pub warnings: Vec<ConfigurationWarning>,
}

/// A document-level error that stops an import.
#[derive(Debug, Clone, PartialEq, Eq)]
pub enum ConfigurationLoadError {
    InvalidToml { message: String },
    InvalidSchemaVersion,
    UnsupportedSchemaVersion(u32),
    InvalidConfiguration(ConfigurationError),
}

/// The content of an import in progress.
pub struct ImportState {
    pub features: FeatureEntries,
    pub appearance: AppearancePreference,
    pub sections: Seq<PanelSectionConfiguration>,
    pub autostart: bool,
    pub monitoring: MonitorSettings,
    pub warnings: Seq<(Seq<char>, Seq<char>)>,
}

/// The content of a loaded configuration.
pub open spec fn state_of(loaded: LoadedConfiguration) -> ImportState {
    ImportState {
        features: loaded.configuration.features@,
        appearance: loaded.configuration.ui.appearance,
        sections: loaded.configuration.ui.panel_sections@,
        autostart: loaded.configuration.startup.autostart,
        monitoring: loaded.configuration.monitoring@,
        warnings: loaded.warnings@.map_values(|warning: ConfigurationWarning| warning@),
    }
}

/// The state every import starts from: the defaults and no warnings.
pub open spec fn initial_state() -> ImportState {
    ImportState {
        features: seq![],
        appearance: AppearancePreference::System,
        sections: default_sections(),
        autostart: false,
        monitoring: default_monitoring(),
        warnings: seq![],
    }
}

/// The state with one more warning.
pub open spec fn warned(state: ImportState, location: Seq<char>, reason: Seq<char>) -> ImportState {
    ImportState { warnings: state.warnings.push((location, reason)), ..state }
}

/// The reason given when a feature ID is not a stable ID.
pub open spec fn invalid_id_reason(id: Seq<char>) -> Seq<char> {
    "Feature settings were ignored: InvalidFeatureId { feature_id: "@ + debug_quoted(id) + " }"@
}

/// One `features` entry: an invalid ID or invalid settings are reported at
/// `features.<id>`; valid settings are stored.
pub open spec fn feature_step(state: ImportState, entry: (String, TomlValue)) -> ImportState {
    let location = "features."@ + entry.0@;
    if !valid_feature_id(entry.0@) {
        warned(state, location, invalid_id_reason(entry.0@))
    } else {
        match read_feature(entry.1) {
            Ok(feature) => ImportState { features: inserted(state.features, entry.0@, feature), ..state },
            Err(reason) => warned(state, location, "Feature settings are invalid and were ignored: "@ + reason),
        }
    }
}

/// The `features` entries, one after another.
pub open spec fn features_fold(state: ImportState, entries: Seq<(String, TomlValue)>) -> ImportState
    decreases entries.len(),
{
    if entries.len() == 0 {
        state
    } else {
        features_fold(feature_step(state, entries[0]), entries.drop_first())
    }
}

/// The `features` value: a table of per-feature settings.
pub open spec fn import_features(state: ImportState, value: Option<TomlValue>) -> ImportState {
    match value {
        None => state,
        Some(TomlValue::Table(entries)) => features_fold(state, entries@),
        Some(_) => warned(state, "features"@, "The features value must be a TOML table."@),
    }
}

/// The location of one panel entry.
pub open spec fn panel_location(index: nat) -> Seq<char> {
    "ui.panel_sections["@ + decimal(index) + "]"@
}

/// One panel entry: invalid entries and repeated sections are reported and
/// skipped; the first entry for a section is kept.
pub open spec fn panel_step(parsed: Seq<PanelSectionConfiguration>, state: ImportState, index: nat, value: TomlValue) -> (Seq<PanelSectionConfiguration>, ImportState) {
    match read_panel_entry(value) {
        Err(reason) => (parsed, warned(state, panel_location(index), "Panel section is invalid and was ignored: "@ + reason)),
        Ok(entry) => if has_section(parsed, entry.section) {
            (parsed, warned(state, panel_location(index), "Duplicate panel section was ignored; the first entry was retained."@))
        } else {
            (parsed.push(entry), state)
        },
    }
}

/// The panel entries from position `start` on.
pub open spec fn panel_fold(parsed: Seq<PanelSectionConfiguration>, state: ImportState, items: Seq<TomlValue>, start: nat) -> (Seq<PanelSectionConfiguration>, ImportState)
    decreases items.len(),
{
    if items.len() == 0 {
        (parsed, state)
    } else {
        let next = panel_step(parsed, state, start, items[0]);
        panel_fold(next.0, next.1, items.drop_first(), start + 1)
    }
}

/// How `Debug` names a panel section.
pub open spec fn section_debug_name(section: PanelSection) -> Seq<char> {
    match section {
        PanelSection::QuickControls => "QuickControls"@,
        PanelSection::FeatureHub => "FeatureHub"@,
        PanelSection::Monitoring => "Monitoring"@,
    }
}

/// A missing section is restored, visible, at the end, and reported.
pub open spec fn restore_section(parsed: Seq<PanelSectionConfiguration>, state: ImportState, section: PanelSection) -> (Seq<PanelSectionConfiguration>, ImportState) {
    if has_section(parsed, section) {
        (parsed, state)
    } else {
        (
            parsed.push(PanelSectionConfiguration { section, visible: true }),
            warned(state, "ui.panel_sections"@, "Missing "@ + section_debug_name(section) + " panel section; its default was restored."@),
        )
    }
}

/// The `ui.panel_sections` value: an array of panel entries, completed with
/// any missing section in default order.
pub open spec fn import_panel_sections(state: ImportState, value: TomlValue) -> ImportState {
    match value {
        TomlValue::Array(items) => {
            let read = panel_fold(seq![], state, items@, 0);
            let first = restore_section(read.0, read.1, PanelSection::QuickControls);
            let second = restore_section(first.0, first.1, PanelSection::FeatureHub);
            let third = restore_section(second.0, second.1, PanelSection::Monitoring);
            ImportState { sections: third.0, ..third.1 }
        },
        _ => warned(state, "ui.panel_sections"@, "Panel sections must be an array."@),
    }
}

/// The `ui` value: a table with an optional appearance and optional panel
/// sections.
pub open spec fn import_ui(state: ImportState, value: Option<TomlValue>) -> ImportState {
    match value {
        None => state,
        Some(TomlValue::Table(entries)) => {
            let with_appearance = match table_get(entries@, "appearance"@) {
                None => state,
                Some(item) => match read_appearance(item) {
                    Ok(appearance) => ImportState { appearance, ..state },
                    Err(reason) => warned(state, "ui.appearance"@, "Appearance preference is invalid and defaults were retained: "@ + reason),
                },
            };
            match table_get(entries@, "panel_sections"@) {
                None => with_appearance,
                Some(item) => import_panel_sections(with_appearance, item),
            }
        },
        Some(_) => warned(state, "ui"@, "The ui value must be a TOML table."@),
    }
}

/// The `startup` value: a table with an optional autostart flag.
pub open spec fn import_startup(state: ImportState, value: Option<TomlValue>) -> ImportState {
    match value {
        None => state,
        Some(TomlValue::Table(entries)) => match table_get(entries@, "autostart"@) {
            None => state,
            Some(item) => match read_bool(item) {
                Ok(autostart) => ImportState { autostart, ..state },
                Err(reason) => warned(state, "startup.autostart"@, "Autostart preference is invalid and defaults were retained: "@ + reason),
            },
        },
        Some(_) => warned(state, "startup"@, "The startup value must be a TOML table."@),
    }
}

/// One legacy `enabled_features` entry: a string names a feature to enable;
/// repeats and invalid IDs are reported at `features.<id>`.
pub open spec fn legacy_step(state: ImportState, index: nat, value: TomlValue) -> ImportState {
    match value {
        TomlValue::Text(id) => {
            let location = "features."@ + id@;
            if lookup(state.features, id@) is Some {
                warned(state, location, "Duplicate legacy feature entry was ignored; the first entry was retained."@)
            } else if !valid_feature_id(id@) {
                warned(state, location, invalid_id_reason(id@))
            } else {
                ImportState { features: inserted(state.features, id@, FeatureConfiguration { enabled: true }), ..state }
            }
        },
        _ => warned(state, "enabled_features["@ + decimal(index) + "]"@, "Legacy enabled_features entries must be strings."@),
    }
}

/// The legacy entries from position `start` on.
pub open spec fn legacy_fold(state: ImportState, items: Seq<TomlValue>, start: nat) -> ImportState
    decreases items.len(),
{
    if items.len() == 0 {
        state
    } else {
        legacy_fold(legacy_step(state, start, items[0]), items.drop_first(), start + 1)
    }
}

/// A document without a schema version: only its legacy list of enabled
/// features is kept.
pub open spec fn migrate_legacy(document: Seq<(String, TomlValue)>) -> ImportState {
    match table_get(document, "enabled_features"@) {
        None => initial_state(),
        Some(TomlValue::Array(items)) => legacy_fold(initial_state(), items@, 0),
        Some(_) => warned(initial_state(), "enabled_features"@, "Legacy enabled_features must be an array of feature IDs."@),
    }
}

/// A versioned document: features, then presentation, then startup.
pub open spec fn import_versioned(document: Seq<(String, TomlValue)>) -> ImportState {
    import_startup(
        import_ui(import_features(initial_state(), table_get(document, "features"@)), table_get(document, "ui"@)),
        table_get(document, "startup"@),
    )
}

/// The schema version a document declares: absent means zero; it must be an
/// integer that fits `u32`.
pub open spec fn declared_schema(document: Seq<(String, TomlValue)>) -> Option<u32> {
    match table_get(document, "schema_version"@) {
        None => Some(0u32),
        Some(TomlValue::Integer(number)) => if 0 <= number <= u32::MAX {
            Some(number as u32)
        } else {
            None
        },
        Some(_) => None,
    }
}

/// The state with other monitoring preferences.
pub open spec fn with_monitoring(state: ImportState, monitoring: MonitorSettings) -> ImportState {
    ImportState { monitoring, ..state }
}

/// The `monitoring.refresh_interval_millis` value: an integer between the
/// bounds, else reported and the default kept.
pub open spec fn import_refresh(state: ImportState, value: Option<TomlValue>) -> ImportState {
    match value {
        None => state,
        Some(item) => if read_unsigned(item) matches Some(millis) && MIN_REFRESH_INTERVAL_MILLIS <= millis
            <= MAX_REFRESH_INTERVAL_MILLIS {
            with_monitoring(state, MonitorSettings { refresh_interval_millis: read_unsigned(item)->0, ..state.monitoring })
        } else {
            warned(
                state,
                "monitoring.refresh_interval_millis"@,
                "Refresh interval must be between 250 and 60000 milliseconds; the default was retained."@,
            )
        },
    }
}

/// The `monitoring.history_samples` value: an integer from 1 to 600, else
/// reported and the default kept.
pub open spec fn import_history(state: ImportState, value: Option<TomlValue>) -> ImportState {
    match value {
        None => state,
        Some(item) => if read_unsigned(item) matches Some(samples) && 1 <= samples <= MAX_HISTORY_SAMPLES {
            with_monitoring(state, MonitorSettings { history_samples: read_unsigned(item)->0 as u32, ..state.monitoring })
        } else {
            warned(state, "monitoring.history_samples"@, "History samples must be between 1 and 600; the default was retained."@)
        },
    }
}

/// The location of one readout entry.
pub open spec fn readout_location(index: nat) -> Seq<char> {
    "monitoring.readouts["@ + decimal(index) + "]"@
}

/// One readout entry: unknown names and repeats are reported and skipped;
/// the first entry for a readout is kept.
pub open spec fn readout_step(parsed: Seq<MonitorReadout>, state: ImportState, index: nat, value: TomlValue) -> (Seq<MonitorReadout>, ImportState) {
    match read_readout(value) {
        Err(reason) => (parsed, warned(state, readout_location(index), "Monitor readout is unknown or invalid and was ignored: "@ + reason)),
        Ok(readout) => if parsed.contains(readout) {
            (parsed, warned(state, readout_location(index), "Duplicate monitor readout was ignored; the first entry was retained."@))
        } else {
            (parsed.push(readout), state)
        },
    }
}

/// The readout entries from position `start` on.
pub open spec fn readout_fold(parsed: Seq<MonitorReadout>, state: ImportState, items: Seq<TomlValue>, start: nat) -> (Seq<MonitorReadout>, ImportState)
    decreases items.len(),
{
    if items.len() == 0 {
        (parsed, state)
    } else {
        let next = readout_step(parsed, state, start, items[0]);
        readout_fold(next.0, next.1, items.drop_first(), start + 1)
    }
}

/// The `monitoring.readouts` value: an array of readout names; when no entry
/// is usable the default list is kept and that is reported.
pub open spec fn import_readouts(state: ImportState, value: Option<TomlValue>) -> ImportState {
    match value {
        None => state,
        Some(TomlValue::Array(items)) => {
            let read = readout_fold(seq![], state, items@, 0);
            if read.0.len() == 0 {
                warned(read.1, "monitoring.readouts"@, "Monitor readouts were empty or invalid; the default list was retained."@)
            } else {
                with_monitoring(read.1, MonitorSettings { readouts: read.0, ..read.1.monitoring })
            }
        },
        Some(_) => warned(state, "monitoring.readouts"@, "Monitor readouts must be an array; the default list was retained."@),
    }
}

/// The name of an alert kind in the `monitoring.alerts` table.
pub open spec fn alert_kind_name(kind: AlertKind) -> Seq<char> {
    match kind {
        AlertKind::Cpu => "cpu"@,
        AlertKind::Temperature => "temperature"@,
        AlertKind::Memory => "memory"@,
        AlertKind::Disk => "disk"@,
        AlertKind::Battery => "battery"@,
    }
}

/// Whether `name` names an alert kind.
pub open spec fn known_kind_name(name: Seq<char>) -> bool {
    name == "cpu"@ || name == "temperature"@ || name == "memory"@ || name == "disk"@ || name == "battery"@
}

/// Each alert kind has its own table name, a known one, and no two kinds
/// share a name.
pub proof fn lemma_alert_kind_names_distinct(first: AlertKind, second: AlertKind)
    ensures
        known_kind_name(alert_kind_name(first)),
        first != second ==> alert_kind_name(first) != alert_kind_name(second),
{
    reveal_strlit("cpu");
    reveal_strlit("temperature");
    reveal_strlit("memory");
    reveal_strlit("disk");
    reveal_strlit("battery");
    assert("cpu"@.len() == 3 && "temperature"@.len() == 11 && "memory"@.len() == 6 && "disk"@.len() == 4);
    assert("battery"@.len() == 7);
}

/// The state with the rule of `kind` replaced.
pub open spec fn with_alert_rule(state: ImportState, kind: AlertKind, rule: AlertRuleConfiguration) -> ImportState {
    with_monitoring(state, MonitorSettings { alerts: with_rule(state.monitoring.alerts, kind, rule), ..state.monitoring })
}

/// The current rule of `kind`.
pub open spec fn current_rule(state: ImportState, kind: AlertKind) -> AlertRuleConfiguration {
    rule_of(state.monitoring.alerts, kind)
}

/// The largest threshold of `kind`, as the reason names it.
pub open spec fn threshold_limit_text(kind: AlertKind) -> Seq<char> {
    if kind == AlertKind::Temperature { "150"@ } else { "100"@ }
}

/// The `enabled` field of an alert rule.
pub open spec fn import_rule_enabled(state: ImportState, kind: AlertKind, location: Seq<char>, value: Option<TomlValue>) -> ImportState {
    match value {
        None => state,
        Some(item) => match read_bool(item) {
            Ok(enabled) => with_alert_rule(state, kind, AlertRuleConfiguration { enabled, ..current_rule(state, kind) }),
            Err(reason) => warned(state, location + ".enabled"@, "Alert enabled value is invalid and the default was retained: "@ + reason),
        },
    }
}

/// The `threshold` field of an alert rule.
pub open spec fn import_rule_threshold(state: ImportState, kind: AlertKind, location: Seq<char>, value: Option<TomlValue>) -> ImportState {
    match value {
        None => state,
        Some(item) => match read_threshold(kind, item) {
            Some(threshold) => with_alert_rule(state, kind, AlertRuleConfiguration { threshold, ..current_rule(state, kind) }),
            None => warned(
                state,
                location + ".threshold"@,
                "Alert threshold must be finite, greater than zero, and no greater than "@ + threshold_limit_text(kind)
                    + "; the default was retained."@,
            ),
        },
    }
}

/// The `sustain_samples` field of an alert rule.
pub open spec fn import_rule_sustain(state: ImportState, kind: AlertKind, location: Seq<char>, value: Option<TomlValue>) -> ImportState {
    match value {
        None => state,
        Some(item) => if read_unsigned(item) matches Some(samples) && MIN_ALERT_SUSTAIN_SAMPLES <= samples
            <= MAX_ALERT_SUSTAIN_SAMPLES {
            with_alert_rule(state, kind, AlertRuleConfiguration { sustain_samples: read_unsigned(item)->0 as u32, ..current_rule(state, kind) })
        } else {
            warned(state, location + ".sustain_samples"@, "Alert sustain samples must be between 1 and 600; the default was retained."@)
        },
    }
}

/// The `cooldown_seconds` field of an alert rule.
pub open spec fn import_rule_cooldown(state: ImportState, kind: AlertKind, location: Seq<char>, value: Option<TomlValue>) -> ImportState {
    match value {
        None => state,
        Some(item) => if read_unsigned(item) matches Some(seconds) && seconds <= MAX_ALERT_COOLDOWN_SECONDS {
            with_alert_rule(state, kind, AlertRuleConfiguration { cooldown_seconds: read_unsigned(item)->0, ..current_rule(state, kind) })
        } else {
            warned(state, location + ".cooldown_seconds"@, "Alert cooldown must be no greater than 86400 seconds; the default was retained."@)
        },
    }
}

/// One alert rule: a table whose fields are each kept or reported on their
/// own, in the order enabled, threshold, sustain samples, cooldown.
pub open spec fn import_rule(state: ImportState, kind: AlertKind, value: TomlValue) -> ImportState {
    let location = "monitoring.alerts."@ + alert_kind_name(kind);
    match value {
        TomlValue::Table(entries) => {
            let fields = entries@;
            import_rule_cooldown(
                import_rule_sustain(
                    import_rule_threshold(
                        import_rule_enabled(state, kind, location, table_get(fields, "enabled"@)),
                        kind,
                        location,
                        table_get(fields, "threshold"@),
                    ),
                    kind,
                    location,
                    table_get(fields, "sustain_samples"@),
                ),
                kind,
                location,
                table_get(fields, "cooldown_seconds"@),
            )
        },
        _ => warned(state, location, "Alert rule must be a TOML table; defaults were retained."@),
    }
}

/// The rule of `kind`, if the alerts table has one.
pub open spec fn rule_if_present(state: ImportState, entries: Seq<(String, TomlValue)>, kind: AlertKind) -> ImportState {
    match table_get(entries, alert_kind_name(kind)) {
        None => state,
        Some(item) => import_rule(state, kind, item),
    }
}

/// Every key of the alerts table that names no kind is reported, in order.
pub open spec fn unknown_kinds_fold(state: ImportState, entries: Seq<(String, TomlValue)>) -> ImportState
    decreases entries.len(),
{
    if entries.len() == 0 {
        state
    } else {
        let next = if known_kind_name(entries[0].0@) {
            state
        } else {
            warned(state, "monitoring.alerts."@ + entries[0].0@, "Unknown alert kind was ignored."@)
        };
        unknown_kinds_fold(next, entries.drop_first())
    }
}

/// The `monitoring.alerts` value: a table of rules by kind, read in kind
/// order, then every unknown kind reported.
pub open spec fn import_alerts(state: ImportState, value: Option<TomlValue>) -> ImportState {
    match value {
        None => state,
        Some(TomlValue::Table(entries)) => {
            let e = entries@;
            let read = rule_if_present(
                rule_if_present(
                    rule_if_present(rule_if_present(rule_if_present(state, e, AlertKind::Cpu), e, AlertKind::Temperature), e, AlertKind::Memory),
                    e,
                    AlertKind::Disk,
                ),
                e,
                AlertKind::Battery,
            );
            unknown_kinds_fold(read, e)
        },
        Some(_) => warned(state, "monitoring.alerts"@, "The monitoring alerts value must be a TOML table; defaults were retained."@),
    }
}

/// The `monitoring` value: refresh interval, history, readouts, then alerts,
/// each setting kept or reported on its own.
pub open spec fn import_monitoring(state: ImportState, value: Option<TomlValue>) -> ImportState {
    match value {
        None => state,
        Some(TomlValue::Table(entries)) => {
            let e = entries@;
            import_alerts(
                import_readouts(
                    import_history(import_refresh(state, table_get(e, "refresh_interval_millis"@)), table_get(e, "history_samples"@)),
                    table_get(e, "readouts"@),
                ),
                table_get(e, "alerts"@),
            )
        },
        Some(_) => warned(state, "monitoring"@, "The monitoring value must be a TOML table."@),
    }
}

/// Whether a panel entry names the Monitoring section.
pub open spec fn names_monitoring(value: TomlValue) -> bool {
    read_panel_entry(value) matches Ok(entry) && entry.section == PanelSection::Monitoring
}

/// Whether some panel entry names the Monitoring section.
pub open spec fn lists_monitoring(items: Seq<TomlValue>) -> bool {
    exists|i: int| 0 <= i < items.len() && #[trigger] names_monitoring(items[i])
}

/// Whether a document's `ui.panel_sections` array holds a Monitoring entry.
pub open spec fn declares_monitoring_section(document: Seq<(String, TomlValue)>) -> bool {
    match table_get(document, "ui"@) {
        Some(TomlValue::Table(ui)) => match table_get(ui@, "panel_sections"@) {
            Some(TomlValue::Array(items)) => lists_monitoring(items@),
            _ => false,
        },
        _ => false,
    }
}

/// The warning for a Monitoring panel section that had to be restored.
pub open spec fn monitoring_restored() -> (Seq<char>, Seq<char>) {
    ("ui.panel_sections"@, "Missing Monitoring panel section; its default was restored."@)
}

/// A version-two document predates the Monitoring section: unless it names
/// one, its restoration is reported, once.
pub open spec fn restore_monitoring(state: ImportState, document: Seq<(String, TomlValue)>) -> ImportState {
    if !declares_monitoring_section(document) && !state.warnings.contains(monitoring_restored()) {
        warned(state, monitoring_restored().0, monitoring_restored().1)
    } else {
        state
    }
}

/// A version-two document: read as version one, with the Monitoring section
/// restored and reported.
pub open spec fn migrate_second(document: Seq<(String, TomlValue)>) -> ImportState {
    restore_monitoring(import_versioned(document), document)
}

/// A current document: read as version one, then its monitoring preferences.
pub open spec fn import_current(document: Seq<(String, TomlValue)>) -> ImportState {
    import_monitoring(import_versioned(document), table_get(document, "monitoring"@))
}

/// The result of importing a parsed document: legacy documents migrate;
/// version one is read without monitoring preferences; version two as well,
/// reporting the Monitoring panel section it could not name; the current
/// version with its monitoring preferences; others are refused.
pub open spec fn document_outcome(document: Seq<(String, TomlValue)>) -> Result<ImportState, ConfigurationLoadError> {
    match declared_schema(document) {
        None => Err(ConfigurationLoadError::InvalidSchemaVersion),
        Some(version) => if version == 0 {
            Ok(migrate_legacy(document))
        } else if version == 1 {
            Ok(import_versioned(document))
        } else if version == 2 {
            Ok(migrate_second(document))
        } else if version == CURRENT_CONFIGURATION_SCHEMA_VERSION {
            Ok(import_current(document))
        } else {
            Err(ConfigurationLoadError::UnsupportedSchemaVersion(version))
        },
    }
}

/// Whether `result` is what importing `document` gives.
pub open spec fn imports_as(result: Result<LoadedConfiguration, ConfigurationLoadError>, document: Seq<(String, TomlValue)>) -> bool {
    match document_outcome(document) {
        Ok(state) => result matches Ok(loaded) && state_of(loaded) == state
            && loaded.configuration.schema_version == CURRENT_CONFIGURATION_SCHEMA_VERSION,
        Err(error) => result == Err::<LoadedConfiguration, ConfigurationLoadError>(error),
    }
}

fn fresh_loaded() -> (loaded: LoadedConfiguration)
    ensures
        state_of(loaded) == initial_state(),
        loaded.configuration.schema_version == CURRENT_CONFIGURATION_SCHEMA_VERSION,
{
    let loaded = LoadedConfiguration { configuration: ApplicationConfiguration::default(), warnings: Vec::new() };
    assert(state_of(loaded).warnings =~= Seq::<(Seq<char>, Seq<char>)>::empty());
    assert(state_of(loaded).features =~= Seq::<(Seq<char>, FeatureConfiguration)>::empty());
    loaded
}

fn warn(loaded: &mut LoadedConfiguration, location: String, reason: String)
    ensures
        state_of(*final(loaded)) == warned(state_of(*old(loaded)), location@, reason@),
        final(loaded).configuration == old(loaded).configuration,
{
    let ghost before = loaded.warnings@;
    let ghost location_view = location@;
    let ghost reason_view = reason@;
    loaded.warnings.push(ConfigurationWarning { feature_id: location, reason });
    assert(loaded.warnings@.map_values(|warning: ConfigurationWarning| warning@) =~= before.map_values(
        |warning: ConfigurationWarning| warning@,
    ).push((location_view, reason_view)));
}

fn invalid_id_text(id: &str) -> (reason: String)
    ensures
        reason@ == invalid_id_reason(id@),
{
    let mut reason = owned("Feature settings were ignored: InvalidFeatureId { feature_id: ");
    let quoted = debug_quote(id);
    reason.append(quoted.as_str());
    reason.append(" }");
    reason
}

fn import_feature_entry(loaded: &mut LoadedConfiguration, entry: &(String, TomlValue))
    ensures
        state_of(*final(loaded)) == feature_step(state_of(*old(loaded)), *entry),
        final(loaded).configuration.schema_version == old(loaded).configuration.schema_version,
{
    let id = entry.0.as_str();
    let location = joined("features.", id);
    match validate_feature_id(id) {
        Err(_) => {
            warn(loaded, location, invalid_id_text(id));
        },
        Ok(()) => match feature_value(&entry.1) {
            Ok(feature) => {
                loaded.configuration.features.insert(owned(id), feature);
            },
            Err(reason) => {
                warn(loaded, location, joined("Feature settings are invalid and were ignored: ", reason.as_str()));
            },
        },
    }
}

fn import_features_value(loaded: &mut LoadedConfiguration, value: Option<&TomlValue>)
    ensures
        state_of(*final(loaded)) == import_features(state_of(*old(loaded)), match value {
            Some(item) => Some(*item),
            None => None,
        }),
        final(loaded).configuration.schema_version == old(loaded).configuration.schema_version,
{
    match value {
        None => {},
        Some(TomlValue::Table(entries)) => {
            let ghost all = entries@;
            let mut index: usize = 0;
            assert(all.subrange(0, all.len() as int) =~= all);
            while index < entries.len()
                invariant
                    all == entries@,
                    index <= all.len(),
                    features_fold(state_of(*old(loaded)), all) == features_fold(state_of(*loaded), all.subrange(index as int, all.len() as int)),
                    loaded.configuration.schema_version == old(loaded).configuration.schema_version,
                decreases all.len() - index,
            {
                let ghost rest = all.subrange(index as int, all.len() as int);
                assert(rest.drop_first() =~= all.subrange(index + 1, all.len() as int));
                assert(rest[0] == all[index as int]);
                import_feature_entry(loaded, &entries[index]);
                index += 1;
            }
        },
        Some(_) => {
            warn(loaded, owned("features"), owned("The features value must be a TOML table."));
        },
    }
}

fn index_location(prefix: &str, index: usize) -> (location: String)
    ensures
        location@ == prefix@ + decimal(index as nat) + "]"@,
{
    let mut location = owned(prefix);
    let digits = decimal_text(index as u64);
    location.append(digits.as_str());
    location.append("]");
    location
}

fn contains_section(parsed: &Vec<PanelSectionConfiguration>, section: PanelSection) -> (found: bool)
    ensures
        found == has_section(parsed@, section),
{
    let mut index: usize = 0;
    while index < parsed.len()
        invariant
            index <= parsed@.len(),
            forall|j: int| 0 <= j < index ==> parsed@[j].section != section,
        decreases parsed@.len() - index,
    {
        if parsed[index].section == section {
            return true;
        }
        index += 1;
    }
    false
}

fn restore_missing(loaded: &mut LoadedConfiguration, parsed: &mut Vec<PanelSectionConfiguration>, section: PanelSection)
    ensures
        ({
            let expected = restore_section(old(parsed)@, state_of(*old(loaded)), section);
            final(parsed)@ == expected.0 && state_of(*final(loaded)) == expected.1
        }),
        final(loaded).configuration == old(loaded).configuration,
{
    if !contains_section(parsed, section) {
        let name = match section {
            PanelSection::QuickControls => "QuickControls",
            PanelSection::FeatureHub => "FeatureHub",
        PanelSection::Monitoring => "Monitoring",
            PanelSection::Monitoring => "Monitoring",
        };
        let mut reason = owned("Missing ");
        reason.append(name);
        reason.append(" panel section; its default was restored.");
        warn(loaded, owned("ui.panel_sections"), reason);
        parsed.push(PanelSectionConfiguration { section, visible: true });
    }
}

fn import_panel_sections_value(loaded: &mut LoadedConfiguration, value: &TomlValue)
    ensures
        state_of(*final(loaded)) == import_panel_sections(state_of(*old(loaded)), *value),
        final(loaded).configuration.schema_version == old(loaded).configuration.schema_version,
{
    match value {
        TomlValue::Array(items) => {
            let ghost all = items@;
            let mut parsed: Vec<PanelSectionConfiguration> = Vec::new();
            let mut index: usize = 0;
            assert(all.subrange(0, all.len() as int) =~= all);
            while index < items.len()
                invariant
                    all == items@,
                    index <= all.len(),
                    panel_fold(seq![], state_of(*old(loaded)), all, 0) == panel_fold(parsed@, state_of(*loaded), all.subrange(index as int, all.len() as int), index as nat),
                    loaded.configuration.schema_version == old(loaded).configuration.schema_version,
                    loaded.configuration.ui.panel_sections == old(loaded).configuration.ui.panel_sections,
                decreases all.len() - index,
            {
                let ghost rest = all.subrange(index as int, all.len() as int);
                assert(rest.drop_first() =~= all.subrange(index + 1, all.len() as int));
                assert(rest[0] == all[index as int]);
                let location = index_location("ui.panel_sections[", index);
                proof {
                    assert(location@ == panel_location(index as nat));
                }
                match panel_entry_value(&items[index]) {
                    Err(reason) => {
                        warn(loaded, location, joined("Panel section is invalid and was ignored: ", reason.as_str()));
                    },
                    Ok(entry) => {
                        if contains_section(&parsed, entry.section) {
                            warn(loaded, location, owned("Duplicate panel section was ignored; the first entry was retained."));
                        } else {
                            parsed.push(entry);
                        }
                    },
                }
                index += 1;
            }
            restore_missing(loaded, &mut parsed, PanelSection::QuickControls);
            restore_missing(loaded, &mut parsed, PanelSection::FeatureHub);
            restore_missing(loaded, &mut parsed, PanelSection::Monitoring);
            loaded.configuration.ui.panel_sections = parsed;
        },
        _ => {
            warn(loaded, owned("ui.panel_sections"), owned("Panel sections must be an array."));
        },
    }
}

fn import_ui_value(loaded: &mut LoadedConfiguration, value: Option<&TomlValue>)
    ensures
        state_of(*final(loaded)) == import_ui(state_of(*old(loaded)), match value {
            Some(item) => Some(*item),
            None => None,
        }),
        final(loaded).configuration.schema_version == old(loaded).configuration.schema_version,
{
    match value {
        None => {},
        Some(TomlValue::Table(entries)) => {
            match get(entries.as_slice(), "appearance") {
                None => {},
                Some(item) => match appearance_value(item) {
                    Ok(appearance) => {
                        loaded.configuration.ui.appearance = appearance;
                    },
                    Err(reason) => {
                        warn(loaded, owned("ui.appearance"), joined("Appearance preference is invalid and defaults were retained: ", reason.as_str()));
                    },
                },
            }
            match get(entries.as_slice(), "panel_sections") {
                None => {},
                Some(item) => {
                    import_panel_sections_value(loaded, item);
                },
            }
        },
        Some(_) => {
            warn(loaded, owned("ui"), owned("The ui value must be a TOML table."));
        },
    }
}

fn import_startup_value(loaded: &mut LoadedConfiguration, value: Option<&TomlValue>)
    ensures
        state_of(*final(loaded)) == import_startup(state_of(*old(loaded)), match value {
            Some(item) => Some(*item),
            None => None,
        }),
        final(loaded).configuration.schema_version == old(loaded).configuration.schema_version,
{
    match value {
        None => {},
        Some(TomlValue::Table(entries)) => match get(entries.as_slice(), "autostart") {
            None => {},
            Some(item) => match bool_value(item) {
                Ok(autostart) => {
                    loaded.configuration.startup = StartupConfiguration { autostart };
                },
                Err(reason) => {
                    warn(loaded, owned("startup.autostart"), joined("Autostart preference is invalid and defaults were retained: ", reason.as_str()));
                },
            },
        },
        Some(_) => {
            warn(loaded, owned("startup"), owned("The startup value must be a TOML table."));
        },
    }
}

fn import_legacy_entry(loaded: &mut LoadedConfiguration, index: usize, value: &TomlValue)
    ensures
        state_of(*final(loaded)) == legacy_step(state_of(*old(loaded)), index as nat, *value),
        final(loaded).configuration.schema_version == old(loaded).configuration.schema_version,
{
    match value {
        TomlValue::Text(id) => {
            let location = joined("features.", id.as_str());
            if loaded.configuration.features.contains_key(id.as_str()) {
                warn(loaded, location, owned("Duplicate legacy feature entry was ignored; the first entry was retained."));
            } else {
                match loaded.configuration.set_feature_enabled(id.as_str(), true) {
                    Ok(()) => {},
                    Err(_) => {
                        warn(loaded, location, invalid_id_text(id.as_str()));
                    },
                }
            }
        },
        _ => {
            let location = index_location("enabled_features[", index);
            warn(loaded, location, owned("Legacy enabled_features entries must be strings."));
        },
    }
}

fn migrate_legacy_document(document: &Vec<(String, TomlValue)>) -> (loaded: LoadedConfiguration)
    ensures
        state_of(loaded) == migrate_legacy(document@),
        loaded.configuration.schema_version == CURRENT_CONFIGURATION_SCHEMA_VERSION,
{
    let mut loaded = fresh_loaded();
    match get(document.as_slice(), "enabled_features") {
        None => {},
        Some(TomlValue::Array(items)) => {
            let ghost all = items@;
            let ghost start = state_of(loaded);
            let mut index: usize = 0;
            assert(all.subrange(0, all.len() as int) =~= all);
            while index < items.len()
                invariant
                    all == items@,
                    index <= all.len(),
                    start == initial_state(),
                    legacy_fold(start, all, 0) == legacy_fold(state_of(loaded), all.subrange(index as int, all.len() as int), index as nat),
                    loaded.configuration.schema_version == CURRENT_CONFIGURATION_SCHEMA_VERSION,
                decreases all.len() - index,
            {
                let ghost rest = all.subrange(index as int, all.len() as int);
                assert(rest.drop_first() =~= all.subrange(index + 1, all.len() as int));
                assert(rest[0] == all[index as int]);
                import_legacy_entry(&mut loaded, index, &items[index]);
                index += 1;
            }
        },
        Some(_) => {
            warn(&mut loaded, owned("enabled_features"), owned("Legacy enabled_features must be an array of feature IDs."));
        },
    }
    loaded
}

fn import_versioned_document(document: &Vec<(String, TomlValue)>) -> (loaded: LoadedConfiguration)
    ensures
        state_of(loaded) == import_versioned(document@),
        loaded.configuration.schema_version == CURRENT_CONFIGURATION_SCHEMA_VERSION,
{
    let mut loaded = fresh_loaded();
    import_features_value(&mut loaded, get(document.as_slice(), "features"));
    import_ui_value(&mut loaded, get(document.as_slice(), "ui"));
    import_startup_value(&mut loaded, get(document.as_slice(), "startup"));
    loaded
}

/// The value behind an optional reference.
pub open spec fn present(value: Option<&TomlValue>) -> Option<TomlValue> {
    match value {
        Some(item) => Some(*item),
        None => None,
    }
}

fn import_refresh_value(loaded: &mut LoadedConfiguration, value: Option<&TomlValue>)
    ensures
        state_of(*final(loaded)) == import_refresh(state_of(*old(loaded)), present(value)),
        final(loaded).configuration.schema_version == old(loaded).configuration.schema_version,
{
    if let Some(item) = value {
        let accepted = match unsigned_value(item) {
            Some(millis) => if MIN_REFRESH_INTERVAL_MILLIS <= millis && millis <= MAX_REFRESH_INTERVAL_MILLIS {
                Some(millis)
            } else {
                None
            },
            None => None,
        };
        match accepted {
            Some(millis) => {
                loaded.configuration.monitoring.refresh_interval_millis = millis;
            },
            None => {
                warn(
                    loaded,
                    owned("monitoring.refresh_interval_millis"),
                    owned("Refresh interval must be between 250 and 60000 milliseconds; the default was retained."),
                );
            },
        }
    }
}

fn import_history_value(loaded: &mut LoadedConfiguration, value: Option<&TomlValue>)
    ensures
        state_of(*final(loaded)) == import_history(state_of(*old(loaded)), present(value)),
        final(loaded).configuration.schema_version == old(loaded).configuration.schema_version,
{
    if let Some(item) = value {
        let accepted = match unsigned_value(item) {
            Some(samples) => if 1 <= samples && samples <= MAX_HISTORY_SAMPLES as u64 {
                Some(samples as u32)
            } else {
                None
            },
            None => None,
        };
        match accepted {
            Some(samples) => {
                loaded.configuration.monitoring.history_samples = samples;
            },
            None => {
                warn(
                    loaded,
                    owned("monitoring.history_samples"),
                    owned("History samples must be between 1 and 600; the default was retained."),
                );
            },
        }
    }
}

fn contains_readout(parsed: &Vec<MonitorReadout>, readout: MonitorReadout) -> (found: bool)
    ensures
        found == parsed@.contains(readout),
{
    let mut index: usize = 0;
    while index < parsed.len()
        invariant
            index <= parsed@.len(),
            forall|j: int| 0 <= j < index ==> parsed@[j] != readout,
        decreases parsed@.len() - index,
    {
        if parsed[index] == readout {
            assert(parsed@[index as int] == readout);
            return true;
        }
        index += 1;
    }
    false
}

fn import_readouts_value(loaded: &mut LoadedConfiguration, value: Option<&TomlValue>)
    ensures
        state_of(*final(loaded)) == import_readouts(state_of(*old(loaded)), present(value)),
        final(loaded).configuration.schema_version == old(loaded).configuration.schema_version,
{
    match value {
        None => {},
        Some(TomlValue::Array(items)) => {
            let ghost all = items@;
            let mut parsed: Vec<MonitorReadout> = Vec::new();
            let mut index: usize = 0;
            assert(all.subrange(0, all.len() as int) =~= all);
            while index < items.len()
                invariant
                    all == items@,
                    index <= all.len(),
                    readout_fold(seq![], state_of(*old(loaded)), all, 0) == readout_fold(parsed@, state_of(*loaded), all.subrange(index as int, all.len() as int), index as nat),
                    loaded.configuration.schema_version == old(loaded).configuration.schema_version,
                    loaded.configuration.monitoring == old(loaded).configuration.monitoring,
                decreases all.len() - index,
            {
                let ghost rest = all.subrange(index as int, all.len() as int);
                assert(rest.drop_first() =~= all.subrange(index + 1, all.len() as int));
                assert(rest[0] == all[index as int]);
                let location = index_location("monitoring.readouts[", index);
                proof {
                    assert(location@ == readout_location(index as nat));
                }
                match readout_value(&items[index]) {
                    Err(reason) => {
                        warn(loaded, location, joined("Monitor readout is unknown or invalid and was ignored: ", reason.as_str()));
                    },
                    Ok(readout) => {
                        if contains_readout(&parsed, readout) {
                            warn(loaded, location, owned("Duplicate monitor readout was ignored; the first entry was retained."));
                        } else {
                            parsed.push(readout);
                        }
                    },
                }
                index += 1;
            }
            if parsed.len() == 0 {
                warn(loaded, owned("monitoring.readouts"), owned("Monitor readouts were empty or invalid; the default list was retained."));
            } else {
                loaded.configuration.monitoring.readouts = parsed;
            }
        },
        Some(_) => {
            warn(loaded, owned("monitoring.readouts"), owned("Monitor readouts must be an array; the default list was retained."));
        },
    }
}

fn kind_name_text(kind: AlertKind) -> (name: &'static str)
    ensures
        name@ == alert_kind_name(kind),
{
    match kind {
        AlertKind::Cpu => "cpu",
        AlertKind::Temperature => "temperature",
        AlertKind::Memory => "memory",
        AlertKind::Disk => "disk",
        AlertKind::Battery => "battery",
    }
}

fn import_rule_enabled_value(loaded: &mut LoadedConfiguration, kind: AlertKind, location: &str, value: Option<&TomlValue>)
    ensures
        state_of(*final(loaded)) == import_rule_enabled(state_of(*old(loaded)), kind, location@, present(value)),
        final(loaded).configuration.schema_version == old(loaded).configuration.schema_version,
{
    if let Some(item) = value {
        match bool_value(item) {
            Ok(enabled) => {
                let mut rule = loaded.configuration.monitoring.alerts.rule(kind);
                rule.enabled = enabled;
                loaded.configuration.monitoring.alerts.set_rule(kind, rule);
            },
            Err(reason) => {
                warn(loaded, joined(location, ".enabled"), joined("Alert enabled value is invalid and the default was retained: ", reason.as_str()));
            },
        }
    }
}

fn import_rule_threshold_value(loaded: &mut LoadedConfiguration, kind: AlertKind, location: &str, value: Option<&TomlValue>)
    ensures
        state_of(*final(loaded)) == import_rule_threshold(state_of(*old(loaded)), kind, location@, present(value)),
        final(loaded).configuration.schema_version == old(loaded).configuration.schema_version,
{
    if let Some(item) = value {
        match threshold_value(kind, item) {
            Some(threshold) => {
                let mut rule = loaded.configuration.monitoring.alerts.rule(kind);
                rule.threshold = threshold;
                loaded.configuration.monitoring.alerts.set_rule(kind, rule);
            },
            None => {
                let limit = if matches!(kind, AlertKind::Temperature) { "150" } else { "100" };
                let mut reason = owned("Alert threshold must be finite, greater than zero, and no greater than ");
                reason.append(limit);
                reason.append("; the default was retained.");
                warn(loaded, joined(location, ".threshold"), reason);
            },
        }
    }
}

fn import_rule_sustain_value(loaded: &mut LoadedConfiguration, kind: AlertKind, location: &str, value: Option<&TomlValue>)
    ensures
        state_of(*final(loaded)) == import_rule_sustain(state_of(*old(loaded)), kind, location@, present(value)),
        final(loaded).configuration.schema_version == old(loaded).configuration.schema_version,
{
    if let Some(item) = value {
        let accepted = match unsigned_value(item) {
            Some(samples) => if MIN_ALERT_SUSTAIN_SAMPLES as u64 <= samples && samples <= MAX_ALERT_SUSTAIN_SAMPLES as u64 {
                Some(samples as u32)
            } else {
                None
            },
            None => None,
        };
        match accepted {
            Some(samples) => {
                let mut rule = loaded.configuration.monitoring.alerts.rule(kind);
                rule.sustain_samples = samples;
                loaded.configuration.monitoring.alerts.set_rule(kind, rule);
            },
            None => {
                warn(loaded, joined(location, ".sustain_samples"), owned("Alert sustain samples must be between 1 and 600; the default was retained."));
            },
        }
    }
}

fn import_rule_cooldown_value(loaded: &mut LoadedConfiguration, kind: AlertKind, location: &str, value: Option<&TomlValue>)
    ensures
        state_of(*final(loaded)) == import_rule_cooldown(state_of(*old(loaded)), kind, location@, present(value)),
        final(loaded).configuration.schema_version == old(loaded).configuration.schema_version,
{
    if let Some(item) = value {
        let accepted = match unsigned_value(item) {
            Some(seconds) => if seconds <= MAX_ALERT_COOLDOWN_SECONDS {
                Some(seconds)
            } else {
                None
            },
            None => None,
        };
        match accepted {
            Some(seconds) => {
                let mut rule = loaded.configuration.monitoring.alerts.rule(kind);
                rule.cooldown_seconds = seconds;
                loaded.configuration.monitoring.alerts.set_rule(kind, rule);
            },
            None => {
                warn(loaded, joined(location, ".cooldown_seconds"), owned("Alert cooldown must be no greater than 86400 seconds; the default was retained."));
            },
        }
    }
}

fn import_rule_value(loaded: &mut LoadedConfiguration, kind: AlertKind, value: &TomlValue)
    ensures
        state_of(*final(loaded)) == import_rule(state_of(*old(loaded)), kind, *value),
        final(loaded).configuration.schema_version == old(loaded).configuration.schema_version,
{
    let location = joined("monitoring.alerts.", kind_name_text(kind));
    match value {
        TomlValue::Table(entries) => {
            let fields = entries.as_slice();
            import_rule_enabled_value(loaded, kind, location.as_str(), get(fields, "enabled"));
            import_rule_threshold_value(loaded, kind, location.as_str(), get(fields, "threshold"));
            import_rule_sustain_value(loaded, kind, location.as_str(), get(fields, "sustain_samples"));
            import_rule_cooldown_value(loaded, kind, location.as_str(), get(fields, "cooldown_seconds"));
        },
        _ => {
            warn(loaded, location, owned("Alert rule must be a TOML table; defaults were retained."));
        },
    }
}

fn rule_if_present_value(loaded: &mut LoadedConfiguration, entries: &Vec<(String, TomlValue)>, kind: AlertKind)
    ensures
        state_of(*final(loaded)) == rule_if_present(state_of(*old(loaded)), entries@, kind),
        final(loaded).configuration.schema_version == old(loaded).configuration.schema_version,
{
    match get(entries.as_slice(), kind_name_text(kind)) {
        None => {},
        Some(item) => {
            import_rule_value(loaded, kind, item);
        },
    }
}

fn is_known_kind_name(name: &str) -> (known: bool)
    ensures
        known == known_kind_name(name@),
{
    str_equal(name, "cpu") || str_equal(name, "temperature") || str_equal(name, "memory") || str_equal(name, "disk")
        || str_equal(name, "battery")
}

fn import_alerts_value(loaded: &mut LoadedConfiguration, value: Option<&TomlValue>)
    ensures
        state_of(*final(loaded)) == import_alerts(state_of(*old(loaded)), present(value)),
        final(loaded).configuration.schema_version == old(loaded).configuration.schema_version,
{
    match value {
        None => {},
        Some(TomlValue::Table(entries)) => {
            rule_if_present_value(loaded, entries, AlertKind::Cpu);
            rule_if_present_value(loaded, entries, AlertKind::Temperature);
            rule_if_present_value(loaded, entries, AlertKind::Memory);
            rule_if_present_value(loaded, entries, AlertKind::Disk);
            rule_if_present_value(loaded, entries, AlertKind::Battery);
            let ghost all = entries@;
            let ghost read = state_of(*loaded);
            let mut index: usize = 0;
            assert(all.subrange(0, all.len() as int) =~= all);
            while index < entries.len()
                invariant
                    all == entries@,
                    index <= all.len(),
                    unknown_kinds_fold(read, all) == unknown_kinds_fold(state_of(*loaded), all.subrange(index as int, all.len() as int)),
                    loaded.configuration.schema_version == old(loaded).configuration.schema_version,
                decreases all.len() - index,
            {
                let ghost rest = all.subrange(index as int, all.len() as int);
                assert(rest.drop_first() =~= all.subrange(index + 1, all.len() as int));
                assert(rest[0] == all[index as int]);
                let name = entries[index].0.as_str();
                if !is_known_kind_name(name) {
                    warn(loaded, joined("monitoring.alerts.", name), owned("Unknown alert kind was ignored."));
                }
                index += 1;
            }
        },
        Some(_) => {
            warn(loaded, owned("monitoring.alerts"), owned("The monitoring alerts value must be a TOML table; defaults were retained."));
        },
    }
}

fn import_monitoring_value(loaded: &mut LoadedConfiguration, value: Option<&TomlValue>)
    ensures
        state_of(*final(loaded)) == import_monitoring(state_of(*old(loaded)), present(value)),
        final(loaded).configuration.schema_version == old(loaded).configuration.schema_version,
{
    match value {
        None => {},
        Some(TomlValue::Table(entries)) => {
            let fields = entries.as_slice();
            import_refresh_value(loaded, get(fields, "refresh_interval_millis"));
            import_history_value(loaded, get(fields, "history_samples"));
            import_readouts_value(loaded, get(fields, "readouts"));
            import_alerts_value(loaded, get(fields, "alerts"));
        },
        Some(_) => {
            warn(loaded, owned("monitoring"), owned("The monitoring value must be a TOML table."));
        },
    }
}

fn declares_monitoring(document: &Vec<(String, TomlValue)>) -> (found: bool)
    ensures
        found == declares_monitoring_section(document@),
{
    let ui = match get(document.as_slice(), "ui") {
        Some(TomlValue::Table(ui)) => ui,
        _ => {
            return false;
        },
    };
    let items = match get(ui.as_slice(), "panel_sections") {
        Some(TomlValue::Array(items)) => items,
        _ => {
            return false;
        },
    };
    assert(table_get(document@, "ui"@) == Some(TomlValue::Table(*ui)));
    assert(table_get(ui@, "panel_sections"@) == Some(TomlValue::Array(*items)));
    let mut index: usize = 0;
    while index < items.len()
        invariant
            index <= items@.len(),
            table_get(document@, "ui"@) == Some(TomlValue::Table(*ui)),
            table_get(ui@, "panel_sections"@) == Some(TomlValue::Array(*items)),
            forall|j: int| 0 <= j < index ==> !names_monitoring(#[trigger] items@[j]),
        decreases items@.len() - index,
    {
        match panel_entry_value(&items[index]) {
            Ok(entry) => {
                if entry.section == PanelSection::Monitoring {
                    assert(names_monitoring(items@[index as int]));
                    assert(lists_monitoring(items@));
                    return true;
                }
            },
            Err(_) => {},
        }
        index += 1;
    }
    false
}

fn has_warning(loaded: &LoadedConfiguration, location: &str, reason: &str) -> (found: bool)
    ensures
        found == state_of(*loaded).warnings.contains((location@, reason@)),
{
    let ghost views = state_of(*loaded).warnings;
    let mut index: usize = 0;
    while index < loaded.warnings.len()
        invariant
            views == loaded.warnings@.map_values(|warning: ConfigurationWarning| warning@),
            index <= views.len(),
            forall|j: int| 0 <= j < index ==> views[j] != (location@, reason@),
        decreases views.len() - index,
    {
        let warning = &loaded.warnings[index];
        if str_equal(warning.feature_id.as_str(), location) && str_equal(warning.reason.as_str(), reason) {
            assert(views[index as int] == (location@, reason@));
            return true;
        }
        index += 1;
    }
    false
}

fn restore_monitoring_value(loaded: &mut LoadedConfiguration, document: &Vec<(String, TomlValue)>)
    ensures
        state_of(*final(loaded)) == restore_monitoring(state_of(*old(loaded)), document@),
        final(loaded).configuration.schema_version == old(loaded).configuration.schema_version,
{
    proof {
        reveal_strlit("ui.panel_sections");
        reveal_strlit("Missing Monitoring panel section; its default was restored.");
    }
    if !declares_monitoring(document)
        && !has_warning(loaded, "ui.panel_sections", "Missing Monitoring panel section; its default was restored.") {
        warn(loaded, owned("ui.panel_sections"), owned("Missing Monitoring panel section; its default was restored."));
    }
}

/// Imports a parsed document: migrates or reads it by its schema version,
/// keeping every valid setting and reporting each invalid one.
pub fn import_document(document: &Vec<(String, TomlValue)>) -> (result: Result<LoadedConfiguration, ConfigurationLoadError>)
    ensures
        imports_as(result, document@),
{
    let version: u32 = match get(document.as_slice(), "schema_version") {
        None => 0,
        Some(TomlValue::Integer(number)) => {
            if *number < 0 || *number > u32::MAX as i64 {
                return Err(ConfigurationLoadError::InvalidSchemaVersion);
            }
            *number as u32
        },
        Some(_) => {
            return Err(ConfigurationLoadError::InvalidSchemaVersion);
        },
    };
    if version == 0 {
        Ok(migrate_legacy_document(document))
    } else if version == 1 {
        Ok(import_versioned_document(document))
    } else if version == 2 {
        let mut loaded = import_versioned_document(document);
        restore_monitoring_value(&mut loaded, document);
        Ok(loaded)
    } else if version == CURRENT_CONFIGURATION_SCHEMA_VERSION {
        let mut loaded = import_versioned_document(document);
        import_monitoring_value(&mut loaded, get(document.as_slice(), "monitoring"));
        Ok(loaded)
    } else {
        Err(ConfigurationLoadError::UnsupportedSchemaVersion(version))
    }
}

/// Imports a portable configuration string. Isolated setting errors become
/// warnings; a document that is not TOML, or whose schema version is invalid
/// or unsupported, is an error.
pub fn import_string(contents: &str) -> (result: Result<LoadedConfiguration, ConfigurationLoadError>)
    ensures
        match parsed_toml(contents@) {
            Err(message) => result matches Err(ConfigurationLoadError::InvalidToml { message: reported }) && reported == message,
            Ok(document) => imports_as(result, document@),
        },
{
    match parse_document(contents) {
        Err(message) => Err(ConfigurationLoadError::InvalidToml { message }),
        Ok(document) => import_document(&document),
    }
}

} // verus!
