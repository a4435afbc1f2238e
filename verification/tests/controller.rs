use kestrel::alerts::AlertKind;
use kestrel::controller::{plan_configuration_change, ConfigurationPlan};
use kestrel::monitor_config::{AlertThreshold, MonitorReadout};
use kestrel::configuration::{AppearancePreference, ApplicationConfiguration, PanelSection};
use kestrel::controller::{route_command, CommandRoute, ControllerEffects, ControllerOperation, ControllerState};
use kestrel::quick_toggles::{QuickToggleId, QuickToggleMutation};
use kestrel::runtime::{ApplicationCommand, FeaturePreset, PanelMoveDirection};
use kestrel::toggle_service::QuickToggleCommand;

#[derive(Default)]
struct FakeEffects {
    fail_apply: bool,
    fail_persist: bool,
    autostart_calls: Vec<bool>,
    persisted: usize,
}

impl ControllerEffects for FakeEffects {
    fn refresh_capabilities(&mut self) -> Result<(), String> {
        Ok(())
    }

    fn execute_quick_toggle(&mut self, command: QuickToggleCommand) -> Option<Result<(), String>> {
        (command.id == QuickToggleId::Wifi).then(|| Err("confirmation required".to_string()))
    }

    fn apply_configuration(&mut self, _configuration: &ApplicationConfiguration) -> Result<(), String> {
        if self.fail_apply {
            Err("FeatureIdMismatch".to_string())
        } else {
            Ok(())
        }
    }

    fn configurable_features(&self) -> Vec<&'static str> {
        vec!["system.monitor", "clipboard.history"]
    }

    fn persist(&mut self, _configuration: &ApplicationConfiguration) -> Result<(), String> {
        if self.fail_persist {
            Err("read-only file system".to_string())
        } else {
            self.persisted += 1;
            Ok(())
        }
    }

    fn set_autostart(&mut self, enabled: bool) -> Result<(), String> {
        self.autostart_calls.push(enabled);
        Ok(())
    }

    fn read_configuration(&mut self, path: &str) -> Result<String, String> {
        match path {
            "/missing" => Err("No such file or directory".to_string()),
            "/broken.toml" => Ok("schema_version = = 3".to_string()),
            "/future.toml" => Ok("schema_version = 9".to_string()),
            _ => Ok("schema_version = 3\n[startup]\nautostart = true\n[ui]\nappearance = \"neon\"\n".to_string()),
        }
    }

    fn export_configuration(&mut self, _path: &str, _configuration: &ApplicationConfiguration) -> Result<(), String> {
        Ok(())
    }
}

#[test]
fn failed_operations_leave_the_configuration_unchanged() {
    let mut state = ControllerState::new(ApplicationConfiguration::default(), Vec::new());
    let mut effects = FakeEffects {
        fail_persist: true,
        ..FakeEffects::default()
    };
    let error = state
        .run(&mut effects, ControllerOperation::SetFeatureEnabled { feature_id: "audio.mixer".to_string(), enabled: true })
        .unwrap_err();
    assert_eq!(error, "Feature change was not saved: read-only file system");
    assert!(!state.configuration.features.contains_key("audio.mixer"));
    let error = state
        .run(&mut effects, ControllerOperation::SetAppearance(AppearancePreference::Dark))
        .unwrap_err();
    assert_eq!(error, "Appearance change was not saved: read-only file system");
    assert_eq!(state.configuration.ui.appearance, AppearancePreference::System);
    state.run(&mut effects, ControllerOperation::SetAutostart(true)).unwrap_err();
    assert!(!state.configuration.startup.autostart);
    assert_eq!(effects.autostart_calls, vec![true, false]);
    let error = state
        .run(&mut effects, ControllerOperation::SetFeatureEnabled { feature_id: "bad id".to_string(), enabled: true })
        .unwrap_err();
    assert_eq!(error, "Could not update feature bad id: InvalidFeatureId { feature_id: \"bad id\" }");
}

#[test]
fn presets_apply_and_undo_through_the_controller() {
    let mut configuration = ApplicationConfiguration::default();
    configuration.set_feature_enabled("clipboard.history", true).unwrap();
    let mut state = ControllerState::new(configuration, Vec::new());
    let mut effects = FakeEffects::default();
    assert_eq!(
        state.run(&mut effects, ControllerOperation::ApplyPreset(FeaturePreset::Essentials)).unwrap(),
        "Essentials preset applied"
    );
    assert!(state.configuration.feature_enabled("system.monitor"));
    assert!(!state.configuration.feature_enabled("clipboard.history"));
    assert!(state.preset_snapshot.is_some());
    assert_eq!(state.run(&mut effects, ControllerOperation::UndoPreset).unwrap(), "Feature preset undone");
    assert!(state.configuration.feature_enabled("clipboard.history"));
    assert!(!state.configuration.features.contains_key("system.monitor"));
    assert_eq!(
        state.run(&mut effects, ControllerOperation::UndoPreset).unwrap_err(),
        "There is no feature preset to undo"
    );
}

#[test]
fn a_failed_preset_keeps_the_prior_map() {
    let mut state = ControllerState::new(ApplicationConfiguration::default(), Vec::new());
    let mut effects = FakeEffects {
        fail_apply: true,
        ..FakeEffects::default()
    };
    let error = state
        .run(&mut effects, ControllerOperation::ApplyPreset(FeaturePreset::Everything))
        .unwrap_err();
    assert_eq!(error, "Could not apply the Everything preset: FeatureIdMismatch");
    assert!(state.configuration.features.is_empty());
    assert!(state.preset_snapshot.is_none());
}

#[test]
fn panels_toggles_import_and_export_report_their_outcome() {
    let mut state = ControllerState::new(ApplicationConfiguration::default(), Vec::new());
    let mut effects = FakeEffects::default();
    assert_eq!(
        state
            .run(&mut effects, ControllerOperation::SetPanelVisibility { section: PanelSection::FeatureHub, visible: false })
            .unwrap(),
        "Feature Hub panel hidden"
    );
    assert!(!state.configuration.ui.panel_sections[1].visible);
    assert_eq!(
        state
            .run(&mut effects, ControllerOperation::MovePanelSection { section: PanelSection::QuickControls, direction: PanelMoveDirection::Up })
            .unwrap(),
        "Quick Controls panel is already at that boundary"
    );
    assert_eq!(
        state
            .run(
                &mut effects,
                ControllerOperation::QuickToggle(QuickToggleCommand {
                    id: QuickToggleId::Wifi,
                    mutation: QuickToggleMutation::SetEnabled(false),
                    confirmation_token: None,
                })
            )
            .unwrap(),
        "Wi-Fi failed: confirmation required"
    );
    assert_eq!(
        state.run(&mut effects, ControllerOperation::ImportConfiguration("/missing".to_string())).unwrap_err(),
        "Could not import /missing: configuration I/O failed: No such file or directory"
    );
    let error = state.run(&mut effects, ControllerOperation::ImportConfiguration("/broken.toml".to_string())).unwrap_err();
    assert!(error.starts_with("Could not import /broken.toml: configuration is not valid TOML: "));
    assert_eq!(
        state.run(&mut effects, ControllerOperation::ImportConfiguration("/future.toml".to_string())).unwrap_err(),
        "Could not import /future.toml: configuration schema version 9 is unsupported"
    );
    assert!(state.warnings.is_empty());
    assert_eq!(
        state.run(&mut effects, ControllerOperation::ImportConfiguration("/cfg.toml".to_string())).unwrap(),
        "Imported configuration from /cfg.toml"
    );
    assert!(state.configuration.startup.autostart);
    assert_eq!(state.warnings.len(), 1);
    assert_eq!(state.warnings[0].feature_id, "ui.appearance");
    assert_eq!(effects.autostart_calls, vec![true]);
    assert_eq!(
        state.run(&mut effects, ControllerOperation::ExportConfiguration("/out.toml".to_string())).unwrap(),
        "Exported configuration to /out.toml"
    );
}

#[test]
fn commands_route_to_the_window_a_named_worker_or_quitting() {
    assert!(matches!(route_command(ApplicationCommand::PresentWindow), CommandRoute::PresentWindow));
    assert!(matches!(route_command(ApplicationCommand::Quit), CommandRoute::Quit));
    match route_command(ApplicationCommand::SetFeatureEnabled { feature_id: "clipboard.history".to_string(), enabled: false }) {
        CommandRoute::Run { operation: ControllerOperation::SetFeatureEnabled { feature_id, enabled }, worker } => {
            assert_eq!(feature_id, "clipboard.history");
            assert!(!enabled);
            assert_eq!(worker, "kestrel-feature-change");
        },
        other => panic!("unexpected route {other:?}"),
    }
    match route_command(ApplicationCommand::RefreshCapabilities) {
        CommandRoute::Run { operation: ControllerOperation::Refresh, worker } => assert_eq!(worker, "kestrel-capability-refresh"),
        other => panic!("unexpected route {other:?}"),
    }
    match route_command(ApplicationCommand::MovePanelSection { section: PanelSection::FeatureHub, direction: PanelMoveDirection::Up }) {
        CommandRoute::Run { operation: ControllerOperation::MovePanelSection { .. }, worker } => assert_eq!(worker, "kestrel-panel-movement"),
        other => panic!("unexpected route {other:?}"),
    }
}

#[test]
fn undo_without_a_preset_and_a_missing_panel_are_refused() {
    let mut state = ControllerState::new(ApplicationConfiguration::default(), Vec::new());
    let mut effects = FakeEffects::default();
    assert_eq!(
        state.run(&mut effects, ControllerOperation::UndoPreset).unwrap_err(),
        "There is no feature preset to undo"
    );
    state.configuration.ui.panel_sections.truncate(1);
    assert_eq!(
        state
            .run(&mut effects, ControllerOperation::SetPanelVisibility { section: PanelSection::FeatureHub, visible: true })
            .unwrap_err(),
        "Panel section FeatureHub is not configured"
    );
    assert_eq!(state.run(&mut effects, ControllerOperation::SetAutostart(true)).unwrap(), "Autostart enabled");
    assert_eq!(
        state.run(&mut effects, ControllerOperation::SetFeatureEnabled { feature_id: "bad id".to_string(), enabled: true })
            .unwrap_err()
            .starts_with("Could not update feature bad id: "),
        true
    );
}

#[test]
fn monitoring_operations_are_planned_validated_applied_and_saved() {
    let mut state = ControllerState::new(ApplicationConfiguration::default(), Vec::new());
    let mut effects = FakeEffects::default();
    let message = state
        .run(&mut effects, ControllerOperation::SetMonitorReadoutVisible { readout: MonitorReadout::Swap, visible: false })
        .unwrap();
    assert_eq!(message, "Swap readout hidden");
    assert!(!state.configuration.monitoring.readouts.contains(&MonitorReadout::Swap));
    assert_eq!(effects.persisted, 1);

    let message = state
        .run(&mut effects, ControllerOperation::MoveMonitorReadout { readout: MonitorReadout::Cpu, direction: PanelMoveDirection::Up })
        .unwrap();
    assert_eq!(message, "CPU readout is already at that boundary");
    assert_eq!(effects.persisted, 1);

    let message = state
        .run(&mut effects, ControllerOperation::SetAlertEnabled { kind: AlertKind::Battery, enabled: false })
        .unwrap();
    assert_eq!(message, "Battery alerts disabled");
    assert!(!state.configuration.monitoring.alerts.battery.enabled);

    effects.fail_apply = true;
    let error = state
        .run(
            &mut effects,
            ControllerOperation::SetAlertThreshold { kind: AlertKind::Cpu, threshold: AlertThreshold::Whole(75) },
        )
        .unwrap_err();
    assert_eq!(error, "Could not apply monitoring configuration: FeatureIdMismatch");
    assert_eq!(state.configuration.monitoring.alerts.cpu.threshold, AlertThreshold::FloatBits(90.0f64.to_bits()));

    effects.fail_apply = false;
    effects.fail_persist = true;
    let error = state
        .run(&mut effects, ControllerOperation::SetAppearance(AppearancePreference::Dark))
        .unwrap_err();
    assert_eq!(error, "Appearance change was not saved: read-only file system");
    assert_eq!(state.configuration.ui.appearance, AppearancePreference::System);

    match plan_configuration_change(
        &state.configuration,
        &ControllerOperation::SetPanelVisibility { section: PanelSection::Monitoring, visible: false },
    ) {
        ConfigurationPlan::Persist { candidate, success, failure_prefix } => {
            assert!(!candidate.ui.panel_sections[2].visible);
            assert_eq!(success, "Monitoring panel hidden");
            assert_eq!(failure_prefix, "Panel visibility was not saved: ");
        }
        _ => panic!("a configured section is saved"),
    }
}
