//! The application controller's decisions: each user operation changes the
//! configuration, applies it, persists it, and rolls every step back when a
//! later one fails.

use vstd::prelude::*;

use crate::config_import::{
    ConfigurationLoadError, ConfigurationWarning, ImportState, LoadedConfiguration, debug_quote, debug_quoted,
    document_outcome, import_string, state_of,
};
use crate::toml_document::parsed_toml;
use crate::configuration::{
    AppearancePreference, ApplicationConfiguration, ConfigurationError, ConfigurationErrorModel,
    CURRENT_CONFIGURATION_SCHEMA_VERSION, FeatureConfigurationSnapshot, PanelSection, PanelSectionConfiguration,
    StartupConfiguration, first_invalid_key, panel_validation, valid_feature_id,
};
use crate::feature_map::{FeatureConfiguration, inserted};
use crate::quick_toggles::toggle_label;
use crate::alerts::{AlertKind, alert_kind_label};
use crate::monitor_config::{
    AlertRuleConfiguration, AlertThreshold, MonitorReadout, MonitorSettings, move_monitor_readout, readout_label,
    readout_moved, rule_of, set_readout_visible, with_readout_visibility, with_rule,
};
use crate::runtime::{
    ApplicationCommand, FeaturePreset, PanelMoveDirection, apply_preset_features, move_panel_section, moved,
    preset_applied, preset_label, section_position,
};
use crate::text::{joined, owned};
use crate::text_parse::starts_with;
use crate::toggle_service::QuickToggleCommand;

verus! {

/// The outside work an operation needs: the runtime, persistence, the
/// autostart entry and configuration files. Each failure is reported as text.
pub trait ControllerEffects {
    fn refresh_capabilities(&mut self) -> Result<(), String>;

    fn execute_quick_toggle(&mut self, command: QuickToggleCommand) -> Option<Result<(), String>>;

    fn apply_configuration(&mut self, configuration: &ApplicationConfiguration) -> Result<(), String>;

    /// The IDs of the features a preset decides.
    fn configurable_features(&self) -> Vec<&'static str>;

    fn persist(&mut self, configuration: &ApplicationConfiguration) -> Result<(), String>;

    fn set_autostart(&mut self, enabled: bool) -> Result<(), String>;

    /// The text of a configuration file chosen for import.
    fn read_configuration(&mut self, path: &str) -> Result<String, String>;

    fn export_configuration(&mut self, path: &str, configuration: &ApplicationConfiguration) -> Result<(), String>;
}

/// A request from the window or the tray.
#[derive(Debug)]
pub enum ControllerOperation {
    Refresh,
    QuickToggle(QuickToggleCommand),
    SetFeatureEnabled { feature_id: String, enabled: bool },
    ApplyPreset(FeaturePreset),
    UndoPreset,
    SetAppearance(AppearancePreference),
    SetAutostart(bool),
    SetPanelVisibility { section: PanelSection, visible: bool },
    MovePanelSection { section: PanelSection, direction: PanelMoveDirection },
    SetMonitorReadoutVisible { readout: MonitorReadout, visible: bool },
    MoveMonitorReadout { readout: MonitorReadout, direction: PanelMoveDirection },
    SetAlertEnabled { kind: AlertKind, enabled: bool },
    SetAlertThreshold { kind: AlertKind, threshold: AlertThreshold },
    ImportConfiguration(String),
    ExportConfiguration(String),
}

/// Undoing a preset through the controller gives back the exact feature map
/// the preset replaced: after an applied preset and an undo that both
/// succeed, the features are what they were before the preset.
pub proof fn lemma_controller_undo_restores(
    start: ControllerState,
    applied: ControllerState,
    undone: ControllerState,
    preset: FeaturePreset,
    first: Result<String, String>,
    second: Result<String, String>,
)
    requires
        runs_as(start, applied, ControllerOperation::ApplyPreset(preset), first),
        first is Ok,
        runs_as(applied, undone, ControllerOperation::UndoPreset, second),
        second is Ok,
    ensures
        undone.configuration.features@ == start.configuration.features@,
        undone.preset_snapshot is None,
{
}

/// Where a command from the window or the tray goes: to the window, to a
/// worker that runs one operation (named for that worker), or to quitting.
#[derive(Debug)]
pub enum CommandRoute {
    PresentWindow,
    Run { operation: ControllerOperation, worker: &'static str },
    Quit,
}

/// Routes a command from an entry surface.
pub fn route_command(command: ApplicationCommand) -> (route: CommandRoute)
    ensures
        route == match command {
            ApplicationCommand::PresentWindow => CommandRoute::PresentWindow,
            ApplicationCommand::RefreshCapabilities => CommandRoute::Run {
                operation: ControllerOperation::Refresh,
                worker: "kestrel-capability-refresh",
            },
            ApplicationCommand::QuickToggle(command) => CommandRoute::Run {
                operation: ControllerOperation::QuickToggle(command),
                worker: "kestrel-quick-toggle",
            },
            ApplicationCommand::SetFeatureEnabled { feature_id, enabled } => CommandRoute::Run {
                operation: ControllerOperation::SetFeatureEnabled { feature_id, enabled },
                worker: "kestrel-feature-change",
            },
            ApplicationCommand::ApplyPreset(preset) => CommandRoute::Run {
                operation: ControllerOperation::ApplyPreset(preset),
                worker: "kestrel-preset-change",
            },
            ApplicationCommand::UndoPreset => CommandRoute::Run {
                operation: ControllerOperation::UndoPreset,
                worker: "kestrel-preset-undo",
            },
            ApplicationCommand::SetAppearance(appearance) => CommandRoute::Run {
                operation: ControllerOperation::SetAppearance(appearance),
                worker: "kestrel-appearance-change",
            },
            ApplicationCommand::SetAutostart(enabled) => CommandRoute::Run {
                operation: ControllerOperation::SetAutostart(enabled),
                worker: "kestrel-autostart-change",
            },
            ApplicationCommand::SetPanelVisibility { section, visible } => CommandRoute::Run {
                operation: ControllerOperation::SetPanelVisibility { section, visible },
                worker: "kestrel-panel-visibility",
            },
            ApplicationCommand::MovePanelSection { section, direction } => CommandRoute::Run {
                operation: ControllerOperation::MovePanelSection { section, direction },
                worker: "kestrel-panel-movement",
            },
            ApplicationCommand::SetMonitorReadoutVisible { readout, visible } => CommandRoute::Run {
                operation: ControllerOperation::SetMonitorReadoutVisible { readout, visible },
                worker: "kestrel-monitor-readout-visibility",
            },
            ApplicationCommand::MoveMonitorReadout { readout, direction } => CommandRoute::Run {
                operation: ControllerOperation::MoveMonitorReadout { readout, direction },
                worker: "kestrel-monitor-readout-movement",
            },
            ApplicationCommand::SetAlertEnabled { kind, enabled } => CommandRoute::Run {
                operation: ControllerOperation::SetAlertEnabled { kind, enabled },
                worker: "kestrel-alert-enabled",
            },
            ApplicationCommand::SetAlertThreshold { kind, threshold } => CommandRoute::Run {
                operation: ControllerOperation::SetAlertThreshold { kind, threshold },
                worker: "kestrel-alert-threshold",
            },
            ApplicationCommand::ImportConfiguration(path) => CommandRoute::Run {
                operation: ControllerOperation::ImportConfiguration(path),
                worker: "kestrel-configuration-import",
            },
            ApplicationCommand::ExportConfiguration(path) => CommandRoute::Run {
                operation: ControllerOperation::ExportConfiguration(path),
                worker: "kestrel-configuration-export",
            },
            ApplicationCommand::Quit => CommandRoute::Quit,
        },
{
    match command {
        ApplicationCommand::PresentWindow => CommandRoute::PresentWindow,
        ApplicationCommand::RefreshCapabilities => CommandRoute::Run {
            operation: ControllerOperation::Refresh,
            worker: "kestrel-capability-refresh",
        },
        ApplicationCommand::QuickToggle(command) => CommandRoute::Run {
            operation: ControllerOperation::QuickToggle(command),
            worker: "kestrel-quick-toggle",
        },
        ApplicationCommand::SetFeatureEnabled { feature_id, enabled } => CommandRoute::Run {
            operation: ControllerOperation::SetFeatureEnabled { feature_id, enabled },
            worker: "kestrel-feature-change",
        },
        ApplicationCommand::ApplyPreset(preset) => CommandRoute::Run {
            operation: ControllerOperation::ApplyPreset(preset),
            worker: "kestrel-preset-change",
        },
        ApplicationCommand::UndoPreset => CommandRoute::Run {
            operation: ControllerOperation::UndoPreset,
            worker: "kestrel-preset-undo",
        },
        ApplicationCommand::SetAppearance(appearance) => CommandRoute::Run {
            operation: ControllerOperation::SetAppearance(appearance),
            worker: "kestrel-appearance-change",
        },
        ApplicationCommand::SetAutostart(enabled) => CommandRoute::Run {
            operation: ControllerOperation::SetAutostart(enabled),
            worker: "kestrel-autostart-change",
        },
        ApplicationCommand::SetPanelVisibility { section, visible } => CommandRoute::Run {
            operation: ControllerOperation::SetPanelVisibility { section, visible },
            worker: "kestrel-panel-visibility",
        },
        ApplicationCommand::MovePanelSection { section, direction } => CommandRoute::Run {
            operation: ControllerOperation::MovePanelSection { section, direction },
            worker: "kestrel-panel-movement",
        },
        ApplicationCommand::SetMonitorReadoutVisible { readout, visible } => CommandRoute::Run {
            operation: ControllerOperation::SetMonitorReadoutVisible { readout, visible },
            worker: "kestrel-monitor-readout-visibility",
        },
        ApplicationCommand::MoveMonitorReadout { readout, direction } => CommandRoute::Run {
            operation: ControllerOperation::MoveMonitorReadout { readout, direction },
            worker: "kestrel-monitor-readout-movement",
        },
        ApplicationCommand::SetAlertEnabled { kind, enabled } => CommandRoute::Run {
            operation: ControllerOperation::SetAlertEnabled { kind, enabled },
            worker: "kestrel-alert-enabled",
        },
        ApplicationCommand::SetAlertThreshold { kind, threshold } => CommandRoute::Run {
            operation: ControllerOperation::SetAlertThreshold { kind, threshold },
            worker: "kestrel-alert-threshold",
        },
        ApplicationCommand::ImportConfiguration(path) => CommandRoute::Run {
            operation: ControllerOperation::ImportConfiguration(path),
            worker: "kestrel-configuration-import",
        },
        ApplicationCommand::ExportConfiguration(path) => CommandRoute::Run {
            operation: ControllerOperation::ExportConfiguration(path),
            worker: "kestrel-configuration-export",
        },
        ApplicationCommand::Quit => CommandRoute::Quit,
    }
}

/// What the controller keeps between operations.
#[derive(Debug)]
pub struct ControllerState {
    pub configuration: ApplicationConfiguration,
    pub warnings: Vec<ConfigurationWarning>,
    pub preset_snapshot: Option<FeatureConfigurationSnapshot>,
}

/// Whether two configurations hold the same settings.
pub open spec fn same_configuration(left: ApplicationConfiguration, right: ApplicationConfiguration) -> bool {
    &&& left.schema_version == right.schema_version
    &&& left.features@ == right.features@
    &&& left.ui.appearance == right.ui.appearance
    &&& left.ui.panel_sections@ == right.ui.panel_sections@
    &&& left.startup == right.startup
    &&& left.monitoring@ == right.monitoring@
}

/// The feature map of an optional preset snapshot.
pub open spec fn snapshot_features(snapshot: Option<FeatureConfigurationSnapshot>) -> Option<crate::feature_map::FeatureEntries> {
    match snapshot {
        Some(found) => Some(found.features@),
        None => None,
    }
}

/// The settings a configuration holds: schema version, features,
/// appearance, panel layout, startup and monitoring preferences.
pub open spec fn settings_of(configuration: ApplicationConfiguration) -> (
    u32,
    crate::feature_map::FeatureEntries,
    AppearancePreference,
    Seq<PanelSectionConfiguration>,
    StartupConfiguration,
    MonitorSettings,
) {
    (
        configuration.schema_version,
        configuration.features@,
        configuration.ui.appearance,
        configuration.ui.panel_sections@,
        configuration.startup,
        configuration.monitoring@,
    )
}

/// Whether an operation left the configuration, the warnings and the preset
/// that can be undone as they were.
pub open spec fn state_kept(before: ControllerState, after: ControllerState) -> bool {
    &&& settings_of(after.configuration) == settings_of(before.configuration)
    &&& after.warnings == before.warnings
    &&& snapshot_features(after.preset_snapshot) == snapshot_features(before.preset_snapshot)
}

/// The panel layout with the first entry of `section` set to `visible`.
pub open spec fn with_visibility(sections: Seq<PanelSectionConfiguration>, section: PanelSection, visible: bool) -> Seq<PanelSectionConfiguration> {
    match section_position(sections, section) {
        Some(i) => sections.update(i, PanelSectionConfiguration { section, visible }),
        None => sections,
    }
}

/// `enabled` or `disabled`.
pub open spec fn enabled_word(enabled: bool) -> Seq<char> {
    if enabled { "enabled"@ } else { "disabled"@ }
}

/// What an operation does to the controller and answers, as far as it does
/// not rest on what the outside work reported.
pub open spec fn runs_as(
    before: ControllerState,
    after: ControllerState,
    operation: ControllerOperation,
    result: Result<String, String>,
) -> bool {
    let settings = settings_of(before.configuration);
    match operation {
        ControllerOperation::Refresh => {
            &&& state_kept(before, after)
            &&& result matches Ok(text) ==> text@ == "Capability and toggle state refreshed"@
            &&& result matches Err(text) ==> starts_with(text@, "Capability refresh failed: "@)
        },
        ControllerOperation::QuickToggle(command) => {
            let label = toggle_label(command.id)@;
            &&& state_kept(before, after)
            &&& result matches Ok(text) && (text@ == label + " updated"@ || text@ == label + " is not available"@
                || starts_with(text@, label + " failed: "@))
        },
        ControllerOperation::SetFeatureEnabled { feature_id, enabled } => {
            &&& !valid_feature_id(feature_id@) ==> (result matches Err(text) && text@ == "Could not update feature "@
                + feature_id@ + ": "@ + configuration_error_text(ConfigurationErrorModel::InvalidFeatureId(feature_id@)))
            &&& valid_feature_id(feature_id@) ==> !(result matches Err(text)
                && starts_with(text@, "Could not update feature "@ + feature_id@ + ": "@))
            &&& result matches Err(text) ==> starts_with(text@, "Could not update feature "@ + feature_id@ + ": "@)
                || starts_with(text@, "Could not apply feature "@ + feature_id@ + ": "@)
                || starts_with(text@, "Feature change was not saved: "@)
            &&& result matches Ok(text) ==> text@ == feature_id@ + " "@ + enabled_word(enabled)
                && settings_of(after.configuration) == (
                    settings.0,
                    inserted(settings.1, feature_id@, FeatureConfiguration { enabled }),
                    settings.2,
                    settings.3,
                    settings.4,
                    settings.5,
                )
                && after.warnings == before.warnings
                && after.preset_snapshot is None
        },
        ControllerOperation::ApplyPreset(preset) => {
            &&& result matches Err(text) ==> starts_with(text@, "Could not apply the "@ + preset_label(preset)@ + " preset: "@)
                || starts_with(text@, "Preset was not saved: "@)
            &&& result matches Ok(text) ==> text@ == preset_label(preset)@ + " preset applied"@
                && (after.preset_snapshot matches Some(snapshot) && snapshot.features@ == settings.1)
                && after.warnings == before.warnings
                && exists|configurable: Seq<&'static str>| settings_of(after.configuration) == (
                    settings.0,
                    #[trigger] preset_applied(settings.1, configurable, preset),
                    settings.2,
                    settings.3,
                    settings.4,
                    settings.5,
                )
        },
        ControllerOperation::UndoPreset => {
            &&& before.preset_snapshot is None ==> (result matches Err(text)
                && text@ == "There is no feature preset to undo"@)
            &&& result matches Err(text) ==> text@ == "There is no feature preset to undo"@
                || starts_with(text@, "Could not undo the feature preset: "@)
                || starts_with(text@, "Preset undo was not saved: "@)
            &&& result matches Ok(text) ==> text@ == "Feature preset undone"@
                && (before.preset_snapshot matches Some(snapshot)
                && settings_of(after.configuration) == (settings.0, snapshot.features@, settings.2, settings.3, settings.4, settings.5))
                && after.warnings == before.warnings
                && after.preset_snapshot is None
        },
        ControllerOperation::SetAutostart(enabled) => {
            &&& result matches Err(text) ==> starts_with(text@, "Could not change autostart: "@)
                || starts_with(text@, "Autostart change was not saved: "@)
            &&& result matches Ok(text) ==> text@ == "Autostart "@ + enabled_word(enabled)
                && settings_of(after.configuration) == (
                    settings.0,
                    settings.1,
                    settings.2,
                    settings.3,
                    StartupConfiguration { autostart: enabled },
                    settings.5,
                )
                && after.warnings == before.warnings
                && snapshot_features(after.preset_snapshot) == snapshot_features(before.preset_snapshot)
        },
        ControllerOperation::SetAppearance(_) | ControllerOperation::SetPanelVisibility { .. }
        | ControllerOperation::MovePanelSection { .. } | ControllerOperation::SetMonitorReadoutVisible { .. }
        | ControllerOperation::MoveMonitorReadout { .. } | ControllerOperation::SetAlertEnabled { .. }
        | ControllerOperation::SetAlertThreshold { .. } => runs_by_plan(before, after, planned(settings, operation), result),
        ControllerOperation::ImportConfiguration(path) => {
            &&& result matches Err(text) ==> starts_with(text@, "Could not import "@ + path@ + ": "@)
                || starts_with(text@, "Imported configuration could not be applied: "@)
                || starts_with(text@, "Imported autostart preference failed: "@)
                || starts_with(text@, "Imported configuration was not saved: "@)
            &&& result matches Ok(text) ==> text@ == "Imported configuration from "@ + path@ && after.preset_snapshot is None
                && after.configuration.schema_version == CURRENT_CONFIGURATION_SCHEMA_VERSION
                && exists|contents: Seq<char>| #[trigger] import_result(contents) == Ok::<ImportState, Seq<char>>(
                    loaded_state(after.configuration, after.warnings),
                )
        },
        ControllerOperation::ExportConfiguration(path) => {
            &&& state_kept(before, after)
            &&& result matches Ok(text) ==> text@ == "Exported configuration to "@ + path@
            &&& result matches Err(text) ==> starts_with(text@, "Could not export "@ + path@ + ": "@)
        },
    }
}

/// How `Debug` names a panel section.
pub open spec fn section_name(section: PanelSection) -> Seq<char> {
    match section {
        PanelSection::QuickControls => "QuickControls"@,
        PanelSection::FeatureHub => "FeatureHub"@,
        PanelSection::Monitoring => "Monitoring"@,
    }
}

/// How a panel section is named to users.
pub open spec fn section_title(section: PanelSection) -> Seq<char> {
    match section {
        PanelSection::QuickControls => "Quick Controls"@,
        PanelSection::FeatureHub => "Feature Hub"@,
        PanelSection::Monitoring => "Monitoring"@,
    }
}

fn section_label(section: PanelSection) -> (label: &'static str)
    ensures
        label@ == section_title(section),
{
    match section {
        PanelSection::QuickControls => "Quick Controls",
        PanelSection::FeatureHub => "Feature Hub",
        PanelSection::Monitoring => "Monitoring",
    }
}

fn section_debug(section: PanelSection) -> (name: &'static str)
    ensures
        name@ == section_name(section),
{
    match section {
        PanelSection::QuickControls => "QuickControls",
        PanelSection::FeatureHub => "FeatureHub",
        PanelSection::Monitoring => "Monitoring",
    }
}

fn text3(a: &str, b: &str, c: &str) -> (text: String)
    ensures
        text@ == a@ + b@ + c@,
{
    let mut text = owned(a);
    text.append(b);
    text.append(c);
    text
}

/// How `Debug` writes a configuration error.
pub open spec fn configuration_error_text(error: ConfigurationErrorModel) -> Seq<char> {
    match error {
        ConfigurationErrorModel::UnsupportedSchemaVersion(version) => "UnsupportedSchemaVersion { version: "@
            + crate::text::decimal(version as nat) + " }"@,
        ConfigurationErrorModel::InvalidFeatureId(feature_id) => "InvalidFeatureId { feature_id: "@ + debug_quoted(
            feature_id,
        ) + " }"@,
        ConfigurationErrorModel::DuplicatePanelSection => "DuplicatePanelSection"@,
        ConfigurationErrorModel::MissingPanelSection => "MissingPanelSection"@,
    }
}

fn error_text(error: &ConfigurationError) -> (text: String)
    ensures
        text@ == configuration_error_text(error@),
{
    match error {
        ConfigurationError::UnsupportedSchemaVersion { version } => {
            let mut text = owned("UnsupportedSchemaVersion { version: ");
            crate::text::push_decimal(&mut text, *version as u64);
            text.append(" }");
            text
        },
        ConfigurationError::InvalidFeatureId { feature_id } => {
            let quoted = debug_quote(feature_id.as_str());
            text3("InvalidFeatureId { feature_id: ", quoted.as_str(), " }")
        },
        ConfigurationError::DuplicatePanelSection => owned("DuplicatePanelSection"),
        ConfigurationError::MissingPanelSection => owned("MissingPanelSection"),
    }
}

/// `shown` or `hidden`.
/// How a document-level import error is described.
pub open spec fn load_error_message(error: ConfigurationLoadError) -> Seq<char> {
    match error {
        ConfigurationLoadError::InvalidToml { message } => "configuration is not valid TOML: "@ + message@,
        ConfigurationLoadError::InvalidSchemaVersion => "schema_version must be a non-negative integer"@,
        ConfigurationLoadError::UnsupportedSchemaVersion(version) => "configuration schema version "@
            + crate::text::decimal(version as nat) + " is unsupported"@,
        ConfigurationLoadError::InvalidConfiguration(error) => "configuration validation failed: "@
            + configuration_error_text(error@),
    }
}

fn load_error_text(error: &ConfigurationLoadError) -> (text: String)
    ensures
        text@ == load_error_message(*error),
{
    match error {
        ConfigurationLoadError::InvalidToml { message } => joined("configuration is not valid TOML: ", message.as_str()),
        ConfigurationLoadError::InvalidSchemaVersion => owned("schema_version must be a non-negative integer"),
        ConfigurationLoadError::UnsupportedSchemaVersion(version) => {
            let mut text = owned("configuration schema version ");
            crate::text::push_decimal(&mut text, *version as u64);
            text.append(" is unsupported");
            text
        },
        ConfigurationLoadError::InvalidConfiguration(error) => {
            let detail = error_text(error);
            joined("configuration validation failed: ", detail.as_str())
        },
    }
}

/// What importing a file's text gives: the imported content, or the
/// description of the document-level error that refused it.
pub open spec fn import_result(contents: Seq<char>) -> Result<ImportState, Seq<char>> {
    match parsed_toml(contents) {
        Err(message) => Err("configuration is not valid TOML: "@ + message@),
        Ok(document) => match document_outcome(document@) {
            Ok(state) => Ok(state),
            Err(error) => Err(load_error_message(error)),
        },
    }
}

/// The content of a configuration together with its warnings.
pub open spec fn loaded_state(configuration: ApplicationConfiguration, warnings: Vec<ConfigurationWarning>) -> ImportState {
    state_of(LoadedConfiguration { configuration, warnings })
}

pub open spec fn shown_word(visible: bool) -> Seq<char> {
    if visible { "shown"@ } else { "hidden"@ }
}

/// The content of an answer.
pub open spec fn answer_view(result: Result<String, String>) -> Result<Seq<char>, Seq<char>> {
    match result {
        Ok(text) => Ok(text@),
        Err(text) => Err(text@),
    }
}

/// What an operation that only changes the configuration asks of the
/// outside work, by content.
pub enum PlanModel {
    /// Answer at once; nothing is saved.
    Answer(Result<Seq<char>, Seq<char>>),
    /// Save these settings; answer the message on success, the prefix and the
    /// error on failure.
    Persist(
        (u32, crate::feature_map::FeatureEntries, AppearancePreference, Seq<PanelSectionConfiguration>, StartupConfiguration, MonitorSettings),
        Seq<char>,
        Seq<char>,
    ),
    /// Validate, apply, then save these settings; answer the message on
    /// success.
    Commit(
        (u32, crate::feature_map::FeatureEntries, AppearancePreference, Seq<PanelSectionConfiguration>, StartupConfiguration, MonitorSettings),
        Seq<char>,
    ),
}

/// Whether an operation only changes the configuration: appearance, panel
/// layout, readouts or alert rules.
pub open spec fn is_configuration_change(operation: ControllerOperation) -> bool {
    match operation {
        ControllerOperation::SetAppearance(_) | ControllerOperation::SetPanelVisibility { .. }
        | ControllerOperation::MovePanelSection { .. } | ControllerOperation::SetMonitorReadoutVisible { .. }
        | ControllerOperation::MoveMonitorReadout { .. } | ControllerOperation::SetAlertEnabled { .. }
        | ControllerOperation::SetAlertThreshold { .. } => true,
        _ => false,
    }
}

/// The settings with other monitoring preferences.
pub open spec fn with_monitor_settings(
    settings: (u32, crate::feature_map::FeatureEntries, AppearancePreference, Seq<PanelSectionConfiguration>, StartupConfiguration, MonitorSettings),
    monitoring: MonitorSettings,
) -> (u32, crate::feature_map::FeatureEntries, AppearancePreference, Seq<PanelSectionConfiguration>, StartupConfiguration, MonitorSettings) {
    (settings.0, settings.1, settings.2, settings.3, settings.4, monitoring)
}

/// The plan of a configuration change over `settings`. Appearance and panel
/// changes are saved; monitoring changes are validated, applied and saved.
/// A section that is not configured is refused; a move past the boundary,
/// of a section or a readout, changes nothing and says so. Other operations
/// are not configuration changes and have no plan.
pub open spec fn planned(
    settings: (u32, crate::feature_map::FeatureEntries, AppearancePreference, Seq<PanelSectionConfiguration>, StartupConfiguration, MonitorSettings),
    operation: ControllerOperation,
) -> PlanModel {
    let monitoring = settings.5;
    match operation {
        ControllerOperation::SetAppearance(appearance) => PlanModel::Persist(
            (settings.0, settings.1, appearance, settings.3, settings.4, settings.5),
            "Appearance updated"@,
            "Appearance change was not saved: "@,
        ),
        ControllerOperation::SetPanelVisibility { section, visible } => match section_position(settings.3, section) {
            None => PlanModel::Answer(Err("Panel section "@ + section_name(section) + " is not configured"@)),
            Some(_) => PlanModel::Persist(
                (settings.0, settings.1, settings.2, with_visibility(settings.3, section, visible), settings.4, settings.5),
                section_title(section) + " panel "@ + shown_word(visible),
                "Panel visibility was not saved: "@,
            ),
        },
        ControllerOperation::MovePanelSection { section, direction } => match moved(settings.3, section, direction) {
            None => PlanModel::Answer(Ok(section_title(section) + " panel is already at that boundary"@)),
            Some(layout) => PlanModel::Persist(
                (settings.0, settings.1, settings.2, layout, settings.4, settings.5),
                "Panel order updated"@,
                "Panel order was not saved: "@,
            ),
        },
        ControllerOperation::SetMonitorReadoutVisible { readout, visible } => PlanModel::Commit(
            with_monitor_settings(
                settings,
                MonitorSettings { readouts: with_readout_visibility(monitoring.readouts, readout, visible), ..monitoring },
            ),
            readout_label(readout)@ + " readout "@ + shown_word(visible),
        ),
        ControllerOperation::MoveMonitorReadout { readout, direction } => match readout_moved(monitoring.readouts, readout, direction) {
            None => PlanModel::Answer(Ok(readout_label(readout)@ + " readout is already at that boundary"@)),
            Some(readouts) => PlanModel::Commit(
                with_monitor_settings(settings, MonitorSettings { readouts, ..monitoring }),
                "Monitor readout order updated"@,
            ),
        },
        ControllerOperation::SetAlertEnabled { kind, enabled } => PlanModel::Commit(
            with_monitor_settings(
                settings,
                MonitorSettings {
                    alerts: with_rule(monitoring.alerts, kind, AlertRuleConfiguration { enabled, ..rule_of(monitoring.alerts, kind) }),
                    ..monitoring
                },
            ),
            alert_kind_label(kind)@ + " alerts "@ + enabled_word(enabled),
        ),
        ControllerOperation::SetAlertThreshold { kind, threshold } => PlanModel::Commit(
            with_monitor_settings(
                settings,
                MonitorSettings {
                    alerts: with_rule(monitoring.alerts, kind, AlertRuleConfiguration { threshold, ..rule_of(monitoring.alerts, kind) }),
                    ..monitoring
                },
            ),
            alert_kind_label(kind)@ + " alert threshold updated"@,
        ),
        _ => PlanModel::Answer(Err(Seq::empty())),
    }
}

/// Whether an operation carried out by its plan did what the plan says:
/// an answer changes nothing; a save that succeeds leaves the planned
/// settings, one that fails leaves the settings as they were and answers its
/// prefix; a monitoring change fails on validation, application or saving,
/// each with its own prefix.
pub open spec fn runs_by_plan(before: ControllerState, after: ControllerState, plan: PlanModel, result: Result<String, String>) -> bool {
    &&& after.warnings == before.warnings
    &&& snapshot_features(after.preset_snapshot) == snapshot_features(before.preset_snapshot)
    &&& match plan {
        PlanModel::Answer(answer) => settings_of(after.configuration) == settings_of(before.configuration)
            && answer_view(result) == answer,
        PlanModel::Persist(settings, success, prefix) => match result {
            Ok(text) => text@ == success && settings_of(after.configuration) == settings,
            Err(text) => starts_with(text@, prefix) && settings_of(after.configuration) == settings_of(before.configuration),
        },
        PlanModel::Commit(settings, success) => match result {
            Ok(text) => text@ == success && settings_of(after.configuration) == settings && settings_valid(settings),
            Err(text) => (starts_with(text@, "Invalid monitoring configuration: "@) <==> !settings_valid(settings))
                && (starts_with(text@, "Invalid monitoring configuration: "@)
                || starts_with(text@, "Could not apply monitoring configuration: "@)
                || starts_with(text@, "Monitoring change was not saved: "@))
                && settings_of(after.configuration) == settings_of(before.configuration),
        },
    }
}

/// Whether settings pass the validation a configuration undergoes before
/// it is applied: the current schema version, valid feature IDs and a
/// complete panel layout without repeats.
pub open spec fn settings_valid(
    settings: (u32, crate::feature_map::FeatureEntries, AppearancePreference, Seq<PanelSectionConfiguration>, StartupConfiguration, MonitorSettings),
) -> bool {
    &&& settings.0 == CURRENT_CONFIGURATION_SCHEMA_VERSION
    &&& first_invalid_key(settings.1) is None
    &&& panel_validation(settings.3) is Ok
}

/// What an operation that only changes the configuration asks of the
/// outside work: the configuration to save, and the answers.
pub enum ConfigurationPlan {
    Answer(Result<String, String>),
    Persist { candidate: ApplicationConfiguration, success: String, failure_prefix: &'static str },
    Commit { candidate: ApplicationConfiguration, success: String },
}

/// The content of a plan.
pub open spec fn plan_view(plan: ConfigurationPlan) -> PlanModel {
    match plan {
        ConfigurationPlan::Answer(answer) => PlanModel::Answer(answer_view(answer)),
        ConfigurationPlan::Persist { candidate, success, failure_prefix } => PlanModel::Persist(
            settings_of(candidate),
            success@,
            failure_prefix@,
        ),
        ConfigurationPlan::Commit { candidate, success } => PlanModel::Commit(settings_of(candidate), success@),
    }
}

fn shown_text(visible: bool) -> (word: &'static str)
    ensures
        word@ == shown_word(visible),
{
    if visible { "shown" } else { "hidden" }
}

fn enabled_text(enabled: bool) -> (word: &'static str)
    ensures
        word@ == enabled_word(enabled),
{
    if enabled { "enabled" } else { "disabled" }
}

/// Plans a configuration change: which configuration is saved, and what is
/// answered, before anything outside is asked.
pub fn plan_configuration_change(configuration: &ApplicationConfiguration, operation: &ControllerOperation) -> (plan: ConfigurationPlan)
    requires
        is_configuration_change(*operation),
    ensures
        plan_view(plan) == planned(settings_of(*configuration), *operation),
{
    let mut candidate = configuration.duplicate();
    match operation {
        ControllerOperation::SetAppearance(appearance) => {
            candidate.ui.appearance = *appearance;
            ConfigurationPlan::Persist {
                candidate,
                success: owned("Appearance updated"),
                failure_prefix: "Appearance change was not saved: ",
            }
        },
        ControllerOperation::SetPanelVisibility { section, visible } => {
            let section = *section;
            proof {
                crate::runtime::lemma_position_is_first(configuration.ui.panel_sections@, section);
            }
            match crate::runtime::find_section(candidate.ui.panel_sections.as_slice(), section) {
                None => ConfigurationPlan::Answer(Err(text3("Panel section ", section_debug(section), " is not configured"))),
                Some(index) => {
                    proof {
                        crate::runtime::lemma_position_of_first(configuration.ui.panel_sections@, section, index as int);
                    }
                    candidate.ui.panel_sections.set(index, PanelSectionConfiguration { section, visible: *visible });
                    ConfigurationPlan::Persist {
                        candidate,
                        success: text3(section_label(section), " panel ", shown_text(*visible)),
                        failure_prefix: "Panel visibility was not saved: ",
                    }
                },
            }
        },
        ControllerOperation::MovePanelSection { section, direction } => {
            if move_panel_section(&mut candidate.ui.panel_sections, *section, *direction) {
                ConfigurationPlan::Persist {
                    candidate,
                    success: owned("Panel order updated"),
                    failure_prefix: "Panel order was not saved: ",
                }
            } else {
                ConfigurationPlan::Answer(Ok(joined(section_label(*section), " panel is already at that boundary")))
            }
        },
        ControllerOperation::SetMonitorReadoutVisible { readout, visible } => {
            set_readout_visible(&mut candidate.monitoring.readouts, *readout, *visible);
            ConfigurationPlan::Commit { candidate, success: text3(readout.label(), " readout ", shown_text(*visible)) }
        },
        ControllerOperation::MoveMonitorReadout { readout, direction } => {
            if move_monitor_readout(&mut candidate.monitoring.readouts, *readout, *direction) {
                ConfigurationPlan::Commit { candidate, success: owned("Monitor readout order updated") }
            } else {
                ConfigurationPlan::Answer(Ok(joined(readout.label(), " readout is already at that boundary")))
            }
        },
        ControllerOperation::SetAlertEnabled { kind, enabled } => {
            let mut rule = candidate.monitoring.alerts.rule(*kind);
            rule.enabled = *enabled;
            candidate.monitoring.alerts.set_rule(*kind, rule);
            ConfigurationPlan::Commit { candidate, success: text3(kind.label(), " alerts ", enabled_text(*enabled)) }
        },
        ControllerOperation::SetAlertThreshold { kind, threshold } => {
            let mut rule = candidate.monitoring.alerts.rule(*kind);
            rule.threshold = *threshold;
            candidate.monitoring.alerts.set_rule(*kind, rule);
            ConfigurationPlan::Commit { candidate, success: joined(kind.label(), " alert threshold updated") }
        },
        _ => ConfigurationPlan::Answer(Err(String::new())),
    }
}

proof fn lemma_starts_with(prefix: Seq<char>, rest: Seq<char>)
    ensures
        starts_with(prefix + rest, prefix),
{
    assert((prefix + rest).subrange(0, prefix.len() as int) =~= prefix);
}

/// A text whose character at `i` differs from the prefix's does not start
/// with that prefix.
proof fn lemma_not_prefix(text: Seq<char>, prefix: Seq<char>, i: int)
    requires
        0 <= i < prefix.len(),
        i < text.len(),
        text[i] != prefix[i],
    ensures
        !starts_with(text, prefix),
{
    if starts_with(text, prefix) {
        assert(text.subrange(0, prefix.len() as int)[i] == text[i]);
    }
}

fn copy_snapshot(snapshot: &FeatureConfigurationSnapshot) -> (copy: FeatureConfigurationSnapshot)
    ensures
        copy.features@ == snapshot.features@,
{
    FeatureConfigurationSnapshot { features: snapshot.features.duplicate() }
}

impl ControllerState {
    /// A controller over a loaded configuration, with nothing to undo.
    pub fn new(configuration: ApplicationConfiguration, warnings: Vec<ConfigurationWarning>) -> (state: Self)
        ensures
            state.configuration == configuration,
            state.warnings == warnings,
            state.preset_snapshot is None,
    {
        ControllerState { configuration, warnings, preset_snapshot: None }
    }

    /// Puts back an earlier configuration and reapplies it, whatever the
    /// runtime answers.
    fn restore_configuration<E: ControllerEffects>(&mut self, effects: &mut E, configuration: ApplicationConfiguration)
        ensures
            same_configuration(final(self).configuration, configuration),
            final(self).warnings == old(self).warnings,
            final(self).preset_snapshot == old(self).preset_snapshot,
    {
        self.configuration = configuration.duplicate();
        let _ = effects.apply_configuration(&configuration);
    }

    fn set_feature<E: ControllerEffects>(&mut self, effects: &mut E, feature_id: String, enabled: bool) -> (result: Result<String, String>)
        ensures
            result is Err ==> same_configuration(final(self).configuration, old(self).configuration)
                && snapshot_features(final(self).preset_snapshot) == snapshot_features(old(self).preset_snapshot),
            final(self).warnings == old(self).warnings,
            result is Ok ==> final(self).preset_snapshot is None,
            !valid_feature_id(feature_id@) ==> result is Err,
            !valid_feature_id(feature_id@) ==> (result matches Err(text) && text@ == "Could not update feature "@
                + feature_id@ + ": "@ + configuration_error_text(ConfigurationErrorModel::InvalidFeatureId(feature_id@))),
            valid_feature_id(feature_id@) ==> !(result matches Err(text)
                && starts_with(text@, "Could not update feature "@ + feature_id@ + ": "@)),
            result matches Err(text) ==> starts_with(text@, "Could not update feature "@ + feature_id@ + ": "@)
                || starts_with(text@, "Could not apply feature "@ + feature_id@ + ": "@)
                || starts_with(text@, "Feature change was not saved: "@),
            result matches Ok(text) ==> text@ == feature_id@ + " "@ + enabled_word(enabled)
                && settings_of(final(self).configuration) == (
                    old(self).configuration.schema_version,
                    inserted(old(self).configuration.features@, feature_id@, FeatureConfiguration { enabled }),
                    old(self).configuration.ui.appearance,
                    old(self).configuration.ui.panel_sections@,
                    old(self).configuration.startup,
                    old(self).configuration.monitoring@,
                ),
    {
        let previous = self.configuration.duplicate();
        let mut candidate = self.configuration.duplicate();
        match candidate.set_feature_enabled(feature_id.as_str(), enabled) {
            Ok(()) => {},
            Err(error) => {
                let detail = error_text(&error);
                let mut message = text3("Could not update feature ", feature_id.as_str(), ": ");
                message.append(detail.as_str());
                proof {
                    lemma_starts_with("Could not update feature "@ + feature_id@ + ": "@, detail@);
                }
                return Err(message);
            },
        }
        match effects.apply_configuration(&candidate) {
            Ok(()) => {},
            Err(error) => {
                self.restore_configuration(effects, previous);
                let mut message = text3("Could not apply feature ", feature_id.as_str(), ": ");
                message.append(error.as_str());
                proof {
                    lemma_starts_with("Could not apply feature "@ + feature_id@ + ": "@, error@);
                    reveal_strlit("Could not apply feature ");
                    reveal_strlit("Could not update feature ");
                    lemma_not_prefix(message@, "Could not update feature "@ + feature_id@ + ": "@, 10);
                }
                return Err(message);
            },
        }
        match effects.persist(&candidate) {
            Ok(()) => {},
            Err(error) => {
                self.restore_configuration(effects, previous);
                proof {
                    lemma_starts_with("Feature change was not saved: "@, error@);
                    reveal_strlit("Feature change was not saved: ");
                    reveal_strlit("Could not update feature ");
                    lemma_not_prefix(
                        "Feature change was not saved: "@ + error@,
                        "Could not update feature "@ + feature_id@ + ": "@,
                        0,
                    );
                }
                return Err(joined("Feature change was not saved: ", error.as_str()));
            },
        }
        self.configuration = candidate;
        self.preset_snapshot = None;
        Ok(text3(feature_id.as_str(), " ", if enabled { "enabled" } else { "disabled" }))
    }

    /// Applies a preset to the given configurable features: the features
    /// become what the preset makes of them, the prior feature map is kept
    /// so that the preset can be undone, and the change is applied and saved.
    /// A failure leaves the configuration and the preset to undo as they were.
    pub fn apply_preset_to<E: ControllerEffects>(
        &mut self,
        effects: &mut E,
        preset: FeaturePreset,
        configurable: &[&'static str],
    ) -> (result: Result<String, String>)
        ensures
            result is Err ==> same_configuration(final(self).configuration, old(self).configuration)
                && snapshot_features(final(self).preset_snapshot) == snapshot_features(old(self).preset_snapshot),
            final(self).warnings == old(self).warnings,
            result is Ok ==> (final(self).preset_snapshot matches Some(snapshot) && snapshot.features@ == old(self).configuration.features@),
            result matches Ok(text) ==> text@ == preset_label(preset)@ + " preset applied"@
                && settings_of(final(self).configuration) == (
                    old(self).configuration.schema_version,
                    preset_applied(old(self).configuration.features@, configurable@, preset),
                    old(self).configuration.ui.appearance,
                    old(self).configuration.ui.panel_sections@,
                    old(self).configuration.startup,
                    old(self).configuration.monitoring@,
                ),
            result matches Err(text) ==> starts_with(text@, "Could not apply the "@ + preset_label(preset)@ + " preset: "@)
                || starts_with(text@, "Preset was not saved: "@),
    {
        let previous = self.configuration.duplicate();
        let snapshot = apply_preset_features(&mut self.configuration, configurable, preset);
        match effects.apply_configuration(&self.configuration) {
            Ok(()) => {},
            Err(error) => {
                self.configuration.restore_features(&snapshot);
                let _ = effects.apply_configuration(&self.configuration);
                self.restore_configuration(effects, previous);
                let mut message = text3("Could not apply the ", preset.label(), " preset: ");
                message.append(error.as_str());
                proof {
                    lemma_starts_with("Could not apply the "@ + preset_label(preset)@ + " preset: "@, error@);
                }
                return Err(message);
            },
        }
        match effects.persist(&self.configuration) {
            Ok(()) => {},
            Err(error) => {
                self.restore_configuration(effects, previous);
                proof {
                    lemma_starts_with("Preset was not saved: "@, error@);
                }
                return Err(joined("Preset was not saved: ", error.as_str()));
            },
        }
        self.preset_snapshot = Some(snapshot);
        Ok(joined(preset.label(), " preset applied"))
    }

    fn undo_preset<E: ControllerEffects>(&mut self, effects: &mut E) -> (result: Result<String, String>)
        ensures
            result is Err ==> same_configuration(final(self).configuration, old(self).configuration)
                && snapshot_features(final(self).preset_snapshot) == snapshot_features(old(self).preset_snapshot),
            final(self).warnings == old(self).warnings,
            result is Ok ==> (old(self).preset_snapshot matches Some(snapshot) && final(self).configuration.features@ == snapshot.features@
                && final(self).preset_snapshot is None),
            old(self).preset_snapshot is None ==> (result matches Err(text) && text@ == "There is no feature preset to undo"@),
            result matches Err(text) ==> text@ == "There is no feature preset to undo"@
                || starts_with(text@, "Could not undo the feature preset: "@)
                || starts_with(text@, "Preset undo was not saved: "@),
            result matches Ok(text) ==> text@ == "Feature preset undone"@
                && (old(self).preset_snapshot matches Some(snapshot)
                && settings_of(final(self).configuration) == (
                    old(self).configuration.schema_version,
                    snapshot.features@,
                    old(self).configuration.ui.appearance,
                    old(self).configuration.ui.panel_sections@,
                    old(self).configuration.startup,
                    old(self).configuration.monitoring@,
                )),
    {
        let snapshot = match self.preset_snapshot.take() {
            Some(snapshot) => snapshot,
            None => {
                return Err(owned("There is no feature preset to undo"));
            },
        };
        let previous = self.configuration.duplicate();
        let kept = copy_snapshot(&snapshot);
        self.configuration.restore_feature_snapshot(snapshot);
        match effects.apply_configuration(&self.configuration) {
            Ok(()) => {},
            Err(error) => {
                self.preset_snapshot = Some(kept);
                self.restore_configuration(effects, previous);
                proof {
                    lemma_starts_with("Could not undo the feature preset: "@, error@);
                }
                return Err(joined("Could not undo the feature preset: ", error.as_str()));
            },
        }
        match effects.persist(&self.configuration) {
            Ok(()) => {},
            Err(error) => {
                self.preset_snapshot = Some(kept);
                self.restore_configuration(effects, previous);
                proof {
                    lemma_starts_with("Preset undo was not saved: "@, error@);
                }
                return Err(joined("Preset undo was not saved: ", error.as_str()));
            },
        }
        Ok(owned("Feature preset undone"))
    }

    fn set_autostart<E: ControllerEffects>(&mut self, effects: &mut E, enabled: bool) -> (result: Result<String, String>)
        ensures
            result is Err ==> same_configuration(final(self).configuration, old(self).configuration),
            result is Ok ==> final(self).configuration.startup.autostart == enabled,
            final(self).warnings == old(self).warnings,
            final(self).preset_snapshot == old(self).preset_snapshot,
            result matches Ok(text) ==> text@ == "Autostart "@ + enabled_word(enabled)
                && settings_of(final(self).configuration) == (
                    old(self).configuration.schema_version,
                    old(self).configuration.features@,
                    old(self).configuration.ui.appearance,
                    old(self).configuration.ui.panel_sections@,
                    StartupConfiguration { autostart: enabled },
                    old(self).configuration.monitoring@,
                ),
            result matches Err(text) ==> starts_with(text@, "Could not change autostart: "@)
                || starts_with(text@, "Autostart change was not saved: "@),
    {
        let previous = self.configuration.duplicate();
        if previous.startup.autostart != enabled {
            match effects.set_autostart(enabled) {
                Ok(()) => {},
                Err(error) => {
                    proof {
                        lemma_starts_with("Could not change autostart: "@, error@);
                    }
                    return Err(joined("Could not change autostart: ", error.as_str()));
                },
            }
        }
        self.configuration.startup.autostart = enabled;
        match effects.persist(&self.configuration) {
            Ok(()) => {},
            Err(error) => {
                if previous.startup.autostart != enabled {
                    let _ = effects.set_autostart(previous.startup.autostart);
                }
                self.configuration = previous;
                proof {
                    lemma_starts_with("Autostart change was not saved: "@, error@);
                }
                return Err(joined("Autostart change was not saved: ", error.as_str()));
            },
        }
        Ok(joined("Autostart ", if enabled { "enabled" } else { "disabled" }))
    }

    /// Imports a configuration from the text of the file at `path`: a text
    /// that is not a configuration is refused with its reason; an imported
    /// configuration is applied, its autostart preference carried out, and
    /// saved, and becomes the configuration with its warnings. Any failure
    /// leaves the configuration, the warnings and the preset to undo as they
    /// were.
    pub fn import_contents<E: ControllerEffects>(&mut self, effects: &mut E, path: &str, contents: &str) -> (result: Result<
        String,
        String,
    >)
        ensures
            import_result(contents@) matches Err(detail) ==> (result matches Err(text)
                && text@ == "Could not import "@ + path@ + ": "@ + detail),
            result is Err ==> same_configuration(final(self).configuration, old(self).configuration)
                && final(self).warnings == old(self).warnings
                && final(self).preset_snapshot == old(self).preset_snapshot,
            result matches Err(text) ==> starts_with(text@, "Could not import "@ + path@ + ": "@)
                || starts_with(text@, "Imported configuration could not be applied: "@)
                || starts_with(text@, "Imported autostart preference failed: "@)
                || starts_with(text@, "Imported configuration was not saved: "@),
            result matches Ok(text) ==> text@ == "Imported configuration from "@ + path@
                && final(self).preset_snapshot is None
                && final(self).configuration.schema_version == CURRENT_CONFIGURATION_SCHEMA_VERSION
                && import_result(contents@) == Ok::<ImportState, Seq<char>>(
                    loaded_state(final(self).configuration, final(self).warnings),
                ),
    {
        let imported = match import_string(contents) {
            Ok(imported) => imported,
            Err(error) => {
                let detail = load_error_text(&error);
                let mut message = text3("Could not import ", path, ": ");
                message.append(detail.as_str());
                proof {
                    lemma_starts_with("Could not import "@ + path@ + ": "@, detail@);
                }
                return Err(message);
            },
        };
        let result = self.install_import(effects, path, imported);
        result
    }

    fn install_import<E: ControllerEffects>(&mut self, effects: &mut E, path: &str, imported: LoadedConfiguration) -> (result: Result<
        String,
        String,
    >)
        ensures
            result is Err ==> same_configuration(final(self).configuration, old(self).configuration)
                && final(self).warnings == old(self).warnings
                && final(self).preset_snapshot == old(self).preset_snapshot,
            result matches Err(text) ==> starts_with(text@, "Imported configuration could not be applied: "@)
                || starts_with(text@, "Imported autostart preference failed: "@)
                || starts_with(text@, "Imported configuration was not saved: "@),
            result matches Ok(text) ==> text@ == "Imported configuration from "@ + path@
                && final(self).preset_snapshot is None
                && final(self).configuration == imported.configuration
                && final(self).warnings == imported.warnings,
    {
        let previous = self.configuration.duplicate();
        let LoadedConfiguration { configuration: candidate, warnings } = imported;
        let mut previous_warnings = warnings;
        std::mem::swap(&mut previous_warnings, &mut self.warnings);
        match effects.apply_configuration(&candidate) {
            Ok(()) => {},
            Err(error) => {
                self.warnings = previous_warnings;
                self.restore_configuration(effects, previous);
                proof {
                    lemma_starts_with("Imported configuration could not be applied: "@, error@);
                }
                return Err(joined("Imported configuration could not be applied: ", error.as_str()));
            },
        }
        let old_autostart = previous.startup.autostart;
        let new_autostart = candidate.startup.autostart;
        if old_autostart != new_autostart {
            match effects.set_autostart(new_autostart) {
                Ok(()) => {},
                Err(error) => {
                    self.warnings = previous_warnings;
                    self.restore_configuration(effects, previous);
                    proof {
                        lemma_starts_with("Imported autostart preference failed: "@, error@);
                    }
                    return Err(joined("Imported autostart preference failed: ", error.as_str()));
                },
            }
        }
        match effects.persist(&candidate) {
            Ok(()) => {},
            Err(error) => {
                if old_autostart != new_autostart {
                    let _ = effects.set_autostart(old_autostart);
                }
                self.warnings = previous_warnings;
                self.restore_configuration(effects, previous);
                proof {
                    lemma_starts_with("Imported configuration was not saved: "@, error@);
                }
                return Err(joined("Imported configuration was not saved: ", error.as_str()));
            },
        }
        self.configuration = candidate;
        self.preset_snapshot = None;
        Ok(joined("Imported configuration from ", path))
    }

    /// Carries out a planned configuration change: saves (after validating
    /// and applying, for monitoring) the planned configuration, and keeps it
    /// only when saving succeeded.
    fn carry_out<E: ControllerEffects>(&mut self, effects: &mut E, plan: ConfigurationPlan) -> (result: Result<String, String>)
        ensures
            runs_by_plan(*old(self), *final(self), plan_view(plan), result),
    {
        match plan {
            ConfigurationPlan::Answer(answer) => answer,
            ConfigurationPlan::Persist { candidate, success, failure_prefix } => match effects.persist(&candidate) {
                Ok(()) => {
                    self.configuration = candidate;
                    Ok(success)
                },
                Err(error) => {
                    proof {
                        lemma_starts_with(failure_prefix@, error@);
                    }
                    Err(joined(failure_prefix, error.as_str()))
                },
            },
            ConfigurationPlan::Commit { candidate, success } => {
                let outcome = candidate.validate();
                assert(outcome is Ok <==> settings_valid(settings_of(candidate)));
                match outcome {
                    Ok(()) => {},
                    Err(error) => {
                        let detail = error_text(&error);
                        proof {
                            lemma_starts_with("Invalid monitoring configuration: "@, detail@);
                        }
                        return Err(joined("Invalid monitoring configuration: ", detail.as_str()));
                    },
                }
                let previous = self.configuration.duplicate();
                match effects.apply_configuration(&candidate) {
                    Ok(()) => {},
                    Err(error) => {
                        self.restore_configuration(effects, previous);
                        proof {
                            lemma_starts_with("Could not apply monitoring configuration: "@, error@);
                        }
                        proof {
                            reveal_strlit("Could not apply monitoring configuration: ");
                            reveal_strlit("Invalid monitoring configuration: ");
                            lemma_not_prefix(
                                "Could not apply monitoring configuration: "@ + error@,
                                "Invalid monitoring configuration: "@,
                                0,
                            );
                        }
                        return Err(joined("Could not apply monitoring configuration: ", error.as_str()));
                    },
                }
                match effects.persist(&candidate) {
                    Ok(()) => {},
                    Err(error) => {
                        self.restore_configuration(effects, previous);
                        proof {
                            lemma_starts_with("Monitoring change was not saved: "@, error@);
                        }
                        proof {
                            reveal_strlit("Monitoring change was not saved: ");
                            reveal_strlit("Invalid monitoring configuration: ");
                            lemma_not_prefix(
                                "Monitoring change was not saved: "@ + error@,
                                "Invalid monitoring configuration: "@,
                                0,
                            );
                        }
                        return Err(joined("Monitoring change was not saved: ", error.as_str()));
                    },
                }
                self.configuration = candidate;
                Ok(success)
            },
        }
    }

    /// Carries out one operation and returns the message to show. A failed
    /// operation leaves the configuration, the warnings and the preset that
    /// can be undone as they were.
    pub fn run<E: ControllerEffects>(&mut self, effects: &mut E, operation: ControllerOperation) -> (result: Result<String, String>)
        ensures
            result is Err ==> same_configuration(final(self).configuration, old(self).configuration)
                && final(self).warnings == old(self).warnings
                && snapshot_features(final(self).preset_snapshot) == snapshot_features(old(self).preset_snapshot),
            runs_as(*old(self), *final(self), operation, result),
    {
        match operation {
            ControllerOperation::Refresh => match effects.refresh_capabilities() {
                Ok(()) => Ok(owned("Capability and toggle state refreshed")),
                Err(error) => {
                    proof {
                        lemma_starts_with("Capability refresh failed: "@, error@);
                    }
                    Err(joined("Capability refresh failed: ", error.as_str()))
                },
            },
            ControllerOperation::QuickToggle(command) => {
                let label = command.id.label();
                match effects.execute_quick_toggle(command) {
                    Some(Ok(())) => Ok(joined(label, " updated")),
                    Some(Err(error)) => {
                        proof {
                            lemma_starts_with(label@ + " failed: "@, error@);
                        }
                        Ok(text3(label, " failed: ", error.as_str()))
                    },
                    None => Ok(joined(label, " is not available")),
                }
            },
            ControllerOperation::SetFeatureEnabled { feature_id, enabled } => self.set_feature(effects, feature_id, enabled),
            ControllerOperation::ApplyPreset(preset) => {
                let configurable = effects.configurable_features();
                let result = self.apply_preset_to(effects, preset, configurable.as_slice());
                proof {
                    if result is Ok {
                        assert(preset_applied(old(self).configuration.features@, configurable@, preset) == settings_of(
                            self.configuration,
                        ).1);
                    }
                }
                result
            },
            ControllerOperation::UndoPreset => self.undo_preset(effects),
            ControllerOperation::SetAppearance(_) | ControllerOperation::SetPanelVisibility { .. }
            | ControllerOperation::MovePanelSection { .. } | ControllerOperation::SetMonitorReadoutVisible { .. }
            | ControllerOperation::MoveMonitorReadout { .. } | ControllerOperation::SetAlertEnabled { .. }
            | ControllerOperation::SetAlertThreshold { .. } => {
                let plan = plan_configuration_change(&self.configuration, &operation);
                self.carry_out(effects, plan)
            },
            ControllerOperation::SetAutostart(enabled) => self.set_autostart(effects, enabled),
            ControllerOperation::ImportConfiguration(path) => match effects.read_configuration(path.as_str()) {
                Ok(contents) => self.import_contents(effects, path.as_str(), contents.as_str()),
                Err(error) => {
                    let mut message = text3("Could not import ", path.as_str(), ": ");
                    message.append("configuration I/O failed: ");
                    message.append(error.as_str());
                    proof {
                        lemma_starts_with(
                            "Could not import "@ + path@ + ": "@,
                            "configuration I/O failed: "@ + error@,
                        );
                        assert(message@ =~= "Could not import "@ + path@ + ": "@ + ("configuration I/O failed: "@ + error@));
                    }
                    Err(message)
                },
            },
            ControllerOperation::ExportConfiguration(path) => match effects.export_configuration(path.as_str(), &self.configuration) {
                Ok(()) => Ok(joined("Exported configuration to ", path.as_str())),
                Err(error) => {
                    let mut message = text3("Could not export ", path.as_str(), ": ");
                    message.append(error.as_str());
                    proof {
                        lemma_starts_with("Could not export "@ + path@ + ": "@, error@);
                    }
                    Err(message)
                },
            },
        }
    }
}

} // verus!
