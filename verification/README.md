# Kestrel

Kestrel is a capability-aware utility host for Linux desktops: every feature
reports whether the current session can support it, what it costs, and how a
user can remedy a limitation.

This crate holds Kestrel's logic as a library verified with Verus:

- `src/capability.rs`, `src/registry.rs`: the feature and capability model and
  the registry that keeps each registration consistent with its report.
- `src/configuration.rs`, `src/feature_map.rs`, `src/config_import.rs`,
  `src/toml_document.rs`: versioned configuration, its ordered feature map,
  and the import that isolates each malformed setting as a warning.
- `src/runtime.rs`, `src/controller.rs`: presets, panel layout, the built-in
  features, and the controller that rolls every failed operation back.
- `src/quick_toggles.rs`, `src/toggle_service.rs`, `src/toggle_rules.rs`,
  `src/session_rules.rs`: quick toggles, their observed state, confirmations
  and the decisions behind each session adapter.
- `src/system_monitor.rs`, `src/proc_monitor.rs`, `src/monitor_service.rs`,
  `src/alerts.rs`, `src/battery_alerts.rs`: procfs/sysfs parsing, bounded
  sampling history and sustained alerts.
- `src/monitor_config.rs`, `src/monitor_view.rs`: the monitoring preferences
  of schema version 3 (refresh interval, history length, readouts and their
  order, one alert rule per kind, thresholds kept as the bits of an `f64`),
  and what the Monitoring panel section shows apart from formatted numbers.
- `src/audio.rs`, `src/clipboard.rs`, `src/clipboard_history.rs`,
  `src/clipboard_probe.rs`: the audio mixer's checks and the memory-only,
  bounded clipboard history.
- `src/view_model.rs`, `src/autostart.rs`, `src/notifications.rs`,
  `src/status_notifier.rs`: presentation state, the XDG autostart entry, and
  notification and tray reports.
- `src/text.rs`, `src/text_parse.rs`, `src/sorting.rs`: text and ordering
  helpers with their specifications.

`app/` is a command-line front end around the library: files, sysfs, the
environment, threads and TOML export live there, together with the
floating-point work: percentages, rates, threshold comparisons and number
formatting. `tests/` exercises the
library through its public interface.
