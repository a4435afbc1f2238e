//! Immutable presentation state derived from registrations, toggles and
//! configuration.

use vstd::prelude::*;

use crate::capability::{CapabilityStatus, CostLevel, Permission, ResourceCost};
use crate::config_import::ConfigurationWarning;
use crate::configuration::{
    AppearancePreference, ApplicationConfiguration, PanelSection, PanelSectionConfiguration,
};
use crate::quick_toggles::{
    MutationConfirmation, QuickToggleControl, QuickToggleId, ToggleAction, toggle_feature_id,
};
use crate::registry::{ServiceLifecycle, ServiceRegistration, lifecycle_of};
use crate::text::{joined, optional_text, owned, str_equal};
use crate::toggle_service::{QuickToggleSnapshot, ToggleStateSource};

verus! {

/// Presentation state for configured panel placement and visibility.
#[derive(Debug, Clone, Copy, PartialEq, Eq, Structural)]
pub struct PanelSectionViewModel {
    pub section: PanelSection,
    pub visible: bool,
}

impl PanelSectionViewModel {
    /// The presentation of one configured section.
    pub fn from_configuration(configuration: &PanelSectionConfiguration) -> (view: Self)
        ensures
            view.section == configuration.section,
            view.visible == configuration.visible,
    {
        PanelSectionViewModel { section: configuration.section, visible: configuration.visible }
    }
}

/// Conservative resource-use labels disclosed by the feature hub.
#[derive(Debug, Clone, Copy, PartialEq, Eq, Structural)]
pub struct ResourceCostViewModel {
    pub idle: CostLevel,
    pub interaction: CostLevel,
    pub polling: CostLevel,
}

impl From<ResourceCost> for ResourceCostViewModel {
    fn from(cost: ResourceCost) -> (view: Self) {
        ResourceCostViewModel { idle: cost.idle, interaction: cost.interaction, polling: cost.polling }
    }
}

impl vstd::std_specs::convert::FromSpecImpl<ResourceCost> for ResourceCostViewModel {
    open spec fn obeys_from_spec() -> bool {
        true
    }

    open spec fn from_spec(cost: ResourceCost) -> Self {
        ResourceCostViewModel { idle: cost.idle, interaction: cost.interaction, polling: cost.polling }
    }
}

/// The word a cost level is shown as.
pub open spec fn cost_word(cost: CostLevel) -> Seq<char> {
    match cost {
        CostLevel::Zero => "none"@,
        CostLevel::Low => "low"@,
        CostLevel::Moderate => "moderate"@,
    }
}

fn cost_label(cost: CostLevel) -> (label: &'static str)
    ensures
        label@ == cost_word(cost),
{
    match cost {
        CostLevel::Zero => "none",
        CostLevel::Low => "low",
        CostLevel::Moderate => "moderate",
    }
}

impl ResourceCostViewModel {
    /// One line naming the idle, interaction and polling costs.
    pub fn summary(self) -> (text: String)
        ensures
            text@ == "Idle: "@ + cost_word(self.idle) + "; interaction: "@ + cost_word(self.interaction)
                + "; polling: "@ + cost_word(self.polling),
    {
        let mut text = owned("Idle: ");
        text.append(cost_label(self.idle));
        text.append("; interaction: ");
        text.append(cost_label(self.interaction));
        text.append("; polling: ");
        text.append(cost_label(self.polling));
        text
    }
}

/// A confirmation as presented.
#[derive(Debug, Clone, PartialEq, Eq)]
pub struct ConfirmationViewModel {
    pub scope: String,
    pub token: String,
}

impl ConfirmationViewModel {
    /// The presentation of a confirmation.
    pub fn from_confirmation(confirmation: &MutationConfirmation) -> (view: Self)
        ensures
            view.scope == confirmation.scope,
            view.token == confirmation.token,
    {
        ConfirmationViewModel { scope: confirmation.scope.clone(), token: confirmation.token.clone() }
    }
}

/// A toggle action as presented.
#[derive(Debug, Clone, PartialEq, Eq)]
pub struct QuickToggleActionViewModel {
    pub target: Option<String>,
    pub label: String,
    pub confirmation: ConfirmationViewModel,
}

impl QuickToggleActionViewModel {
    /// The presentation of an action.
    pub fn from_action(action: &ToggleAction) -> (view: Self)
        ensures
            view.target == action.target,
            view.label == action.label,
            view.confirmation.scope == action.confirmation.scope,
            view.confirmation.token == action.confirmation.token,
    {
        QuickToggleActionViewModel {
            target: match &action.target {
                Some(target) => Some(target.clone()),
                None => None,
            },
            label: action.label.clone(),
            confirmation: ConfirmationViewModel::from_confirmation(&action.confirmation),
        }
    }
}

/// A toggle control as presented.
#[derive(Debug, Clone, PartialEq, Eq)]
pub enum QuickToggleControlViewModel {
    Switch { enabled: bool, confirmation: Option<ConfirmationViewModel> },
    Level { percentage: u8 },
    Actions(Vec<QuickToggleActionViewModel>),
}

/// Whether `view` presents `action`.
pub open spec fn presents_action(view: QuickToggleActionViewModel, action: ToggleAction) -> bool {
    &&& view.target == action.target
    &&& view.label == action.label
    &&& view.confirmation.scope == action.confirmation.scope
    &&& view.confirmation.token == action.confirmation.token
}

/// Whether `view` presents `control`: the same kind, state and actions.
pub open spec fn presents_control(view: QuickToggleControlViewModel, control: QuickToggleControl) -> bool {
    match (view, control) {
        (
            QuickToggleControlViewModel::Switch { enabled: shown, confirmation: shown_confirmation },
            QuickToggleControl::Switch { enabled, confirmation },
        ) => shown == enabled && match (shown_confirmation, confirmation) {
            (Some(a), Some(b)) => a.scope == b.scope && a.token == b.token,
            (None, None) => true,
            _ => false,
        },
        (QuickToggleControlViewModel::Level { percentage: shown }, QuickToggleControl::Level { percentage }) => shown
            == percentage,
        (QuickToggleControlViewModel::Actions(shown), QuickToggleControl::Actions(actions)) => shown@.len()
            == actions@.len() && forall|i: int|
            0 <= i < actions@.len() ==> presents_action(#[trigger] shown@[i], actions@[i]),
        _ => false,
    }
}

impl QuickToggleControlViewModel {
    /// The presentation of a control.
    pub fn from_control(control: &QuickToggleControl) -> (view: Self)
        ensures
            presents_control(view, *control),
    {
        match control {
            QuickToggleControl::Switch { enabled, confirmation } => QuickToggleControlViewModel::Switch {
                enabled: *enabled,
                confirmation: match confirmation {
                    Some(confirmation) => Some(ConfirmationViewModel::from_confirmation(confirmation)),
                    None => None,
                },
            },
            QuickToggleControl::Level { percentage } => QuickToggleControlViewModel::Level {
                percentage: *percentage,
            },
            QuickToggleControl::Actions(actions) => {
                let mut shown: Vec<QuickToggleActionViewModel> = Vec::new();
                let mut index: usize = 0;
                while index < actions.len()
                    invariant
                        index <= actions@.len(),
                        shown@.len() == index,
                        forall|i: int| 0 <= i < index ==> presents_action(#[trigger] shown@[i], actions@[i]),
                    decreases actions@.len() - index,
                {
                    shown.push(QuickToggleActionViewModel::from_action(&actions[index]));
                    index += 1;
                }
                QuickToggleControlViewModel::Actions(shown)
            },
        }
    }
}

/// How a toggle's state source is described.
pub open spec fn source_text(source: ToggleStateSource) -> &'static str {
    match source {
        ToggleStateSource::KestrelOwned => "Kestrel-owned state",
        ToggleStateSource::ProviderObserved => "Provider-observed state",
        ToggleStateSource::ChangedElsewhere => "Changed outside Kestrel",
    }
}

/// One quick toggle as presented.
#[derive(Debug, Clone, PartialEq, Eq)]
pub struct QuickToggleViewModel {
    pub id: QuickToggleId,
    pub feature_id: &'static str,
    pub label: &'static str,
    pub requirement: &'static str,
    pub available: bool,
    pub detail: String,
    pub source: &'static str,
    pub control: Option<QuickToggleControlViewModel>,
    pub error: Option<String>,
}

/// The detail a toggle shows: its observation, else its error, else its
/// capability summary, else a fixed notice.
pub open spec fn toggle_detail(snapshot: QuickToggleSnapshot, registration: Option<ServiceRegistration>) -> Seq<char> {
    match snapshot.observation {
        Some(observation) => observation.detail@,
        None => match snapshot.error {
            Some(error) => error.message@,
            None => match registration {
                Some(registration) => registration.capability.summary@,
                None => "No capability report is available."@,
            },
        },
    }
}

/// Whether `view` presents a toggle's snapshot beside the registration of
/// its feature: identity, availability, detail, state source, control and
/// any error next to an observation.
pub open spec fn presents_toggle(
    view: QuickToggleViewModel,
    snapshot: QuickToggleSnapshot,
    registration: Option<ServiceRegistration>,
) -> bool {
    &&& view.id == snapshot.id
    &&& view.feature_id == toggle_feature_id(snapshot.id)
    &&& view.label == snapshot.label
    &&& view.requirement == snapshot.requirement
    &&& view.available == (registration matches Some(found) && found.running && snapshot.observation is Some)
    &&& view.detail@ == toggle_detail(snapshot, registration)
    &&& view.source == source_text(snapshot.source)
    &&& match snapshot.observation {
        Some(observation) => view.control matches Some(control) && presents_control(control, observation.control),
        None => view.control is None,
    }
    &&& view.error == match (snapshot.observation, snapshot.error) {
        (Some(_), Some(error)) => Some(error.message),
        _ => None::<String>,
    }
}

impl QuickToggleViewModel {
    /// The presentation of one toggle, given the registration of its feature.
    pub fn from_snapshot(snapshot: &QuickToggleSnapshot, registration: Option<&ServiceRegistration>) -> (view: Self)
        ensures
            presents_toggle(view, *snapshot, match registration {
                Some(found) => Some(*found),
                None => None,
            }),
    {
        let detail = match &snapshot.observation {
            Some(observation) => observation.detail.clone(),
            None => match &snapshot.error {
                Some(error) => error.message.clone(),
                None => match registration {
                    Some(found) => found.capability.summary.clone(),
                    None => owned("No capability report is available."),
                },
            },
        };
        let available = match registration {
            Some(found) => found.running && snapshot.observation.is_some(),
            None => false,
        };
        let source = match snapshot.source {
            ToggleStateSource::KestrelOwned => "Kestrel-owned state",
            ToggleStateSource::ProviderObserved => "Provider-observed state",
            ToggleStateSource::ChangedElsewhere => "Changed outside Kestrel",
        };
        let control = match &snapshot.observation {
            Some(observation) => Some(QuickToggleControlViewModel::from_control(&observation.control)),
            None => None,
        };
        let error = match (&snapshot.observation, &snapshot.error) {
            (Some(_), Some(error)) => Some(error.message.clone()),
            _ => None,
        };
        QuickToggleViewModel {
            id: snapshot.id,
            feature_id: snapshot.id.feature_id(),
            label: snapshot.label,
            requirement: snapshot.requirement,
            available,
            detail,
            source,
            control,
            error,
        }
    }
}

/// A distinct action users can take to improve a capability state.
#[derive(Debug, Clone, PartialEq, Eq)]
pub struct RemediationViewModel {
    pub title: &'static str,
    pub message: String,
}

/// The title of a remediation for a status.
pub open spec fn remediation_heading(status: CapabilityStatus) -> &'static str {
    match status {
        CapabilityStatus::NeedsPermission { .. } => "Permission required",
        CapabilityStatus::MissingDependency { .. } => "Dependency required",
        CapabilityStatus::Unsupported { .. } => "Alternative action",
        CapabilityStatus::Limited { .. } => "Improve support",
        CapabilityStatus::Supported => "Suggested action",
    }
}

/// The title of a remediation for a status.
pub fn remediation_title(status: &CapabilityStatus) -> (title: &'static str)
    ensures
        title == remediation_heading(*status),
{
    match status {
        CapabilityStatus::NeedsPermission { .. } => "Permission required",
        CapabilityStatus::MissingDependency { .. } => "Dependency required",
        CapabilityStatus::Unsupported { .. } => "Alternative action",
        CapabilityStatus::Limited { .. } => "Improve support",
        CapabilityStatus::Supported => "Suggested action",
    }
}

/// User-facing lifecycle state, independent of service enum formatting.
#[derive(Debug, Clone, Copy, PartialEq, Eq, Structural)]
pub enum FeatureLifecycleViewModel {
    Registered,
    Available,
    Unavailable,
    Running,
}

/// The presentation of a lifecycle stage.
pub open spec fn lifecycle_view(lifecycle: ServiceLifecycle) -> FeatureLifecycleViewModel {
    match lifecycle {
        ServiceLifecycle::Registered => FeatureLifecycleViewModel::Registered,
        ServiceLifecycle::Available => FeatureLifecycleViewModel::Available,
        ServiceLifecycle::Unavailable => FeatureLifecycleViewModel::Unavailable,
        ServiceLifecycle::Running => FeatureLifecycleViewModel::Running,
    }
}

/// The word a presented lifecycle stage is shown as.
pub open spec fn lifecycle_word(lifecycle: FeatureLifecycleViewModel) -> &'static str {
    match lifecycle {
        FeatureLifecycleViewModel::Registered => "Disabled",
        FeatureLifecycleViewModel::Available => "Ready",
        FeatureLifecycleViewModel::Unavailable => "Unavailable",
        FeatureLifecycleViewModel::Running => "Running",
    }
}

impl FeatureLifecycleViewModel {
    /// The word this stage is shown as.
    pub fn label(self) -> (label: &'static str)
        ensures
            label == lifecycle_word(self),
    {
        match self {
            FeatureLifecycleViewModel::Registered => "Disabled",
            FeatureLifecycleViewModel::Available => "Ready",
            FeatureLifecycleViewModel::Unavailable => "Unavailable",
            FeatureLifecycleViewModel::Running => "Running",
        }
    }
}

impl From<ServiceLifecycle> for FeatureLifecycleViewModel {
    fn from(lifecycle: ServiceLifecycle) -> (view: Self) {
        match lifecycle {
            ServiceLifecycle::Registered => FeatureLifecycleViewModel::Registered,
            ServiceLifecycle::Available => FeatureLifecycleViewModel::Available,
            ServiceLifecycle::Unavailable => FeatureLifecycleViewModel::Unavailable,
            ServiceLifecycle::Running => FeatureLifecycleViewModel::Running,
        }
    }
}

impl vstd::std_specs::convert::FromSpecImpl<ServiceLifecycle> for FeatureLifecycleViewModel {
    open spec fn obeys_from_spec() -> bool {
        true
    }

    open spec fn from_spec(lifecycle: ServiceLifecycle) -> Self {
        lifecycle_view(lifecycle)
    }
}

/// Semantic capability state used by presentation layers without string matching.
#[derive(Debug, Clone, Copy, PartialEq, Eq, Structural)]
pub enum CapabilityKindViewModel {
    Supported,
    Limited,
    NeedsPermission,
    MissingDependency,
    Unsupported,
}

/// Stable, user-facing capability status and its optional detail.
#[derive(Debug, Clone, PartialEq, Eq)]
pub struct CapabilityStatusViewModel {
    pub kind: CapabilityKindViewModel,
    pub label: &'static str,
    pub detail: Option<String>,
}

/// The name a permission is shown as.
pub open spec fn permission_name(permission: Permission) -> &'static str {
    match permission {
        Permission::ScreenCapture => "Screen capture",
        Permission::GlobalShortcut => "Global shortcut",
        Permission::InputInjection => "Input injection",
        Permission::HardwareControl => "Hardware control",
        Permission::SessionControl => "Session control",
        Permission::DesktopSettings => "Desktop settings",
        Permission::NetworkControl => "Network control",
        Permission::FileDeletion => "File deletion",
        Permission::RemovableMedia => "Removable media",
        Permission::Camera => "Camera",
        Permission::Notifications => "Notifications",
    }
}

/// The name a permission is shown as.
pub fn permission_label(permission: Permission) -> (label: &'static str)
    ensures
        label == permission_name(permission),
{
    match permission {
        Permission::ScreenCapture => "Screen capture",
        Permission::GlobalShortcut => "Global shortcut",
        Permission::InputInjection => "Input injection",
        Permission::HardwareControl => "Hardware control",
        Permission::SessionControl => "Session control",
        Permission::DesktopSettings => "Desktop settings",
        Permission::NetworkControl => "Network control",
        Permission::FileDeletion => "File deletion",
        Permission::RemovableMedia => "Removable media",
        Permission::Camera => "Camera",
        Permission::Notifications => "Notifications",
    }
}

/// Whether `view` presents `status`: its kind, its label and its detail.
pub open spec fn presents_status(view: CapabilityStatusViewModel, status: CapabilityStatus) -> bool {
    match status {
        CapabilityStatus::Supported => view.kind == CapabilityKindViewModel::Supported && view.label
            == "Supported" && view.detail is None,
        CapabilityStatus::Limited { reason } => view.kind == CapabilityKindViewModel::Limited
            && view.label == "Limited" && view.detail == Some(reason),
        CapabilityStatus::NeedsPermission { permission } => view.kind
            == CapabilityKindViewModel::NeedsPermission && view.label == "Needs permission" && (
        view.detail matches Some(text) && text@ == permission_name(permission)@),
        CapabilityStatus::MissingDependency { name } => view.kind
            == CapabilityKindViewModel::MissingDependency && view.label == "Missing dependency"
            && view.detail == Some(name),
        CapabilityStatus::Unsupported { reason } => view.kind == CapabilityKindViewModel::Unsupported
            && view.label == "Unsupported" && view.detail == Some(reason),
    }
}

impl CapabilityStatusViewModel {
    /// The presentation of a capability status.
    pub fn from_status(status: &CapabilityStatus) -> (view: Self)
        ensures
            presents_status(view, *status),
    {
        match status {
            CapabilityStatus::Supported => CapabilityStatusViewModel {
                kind: CapabilityKindViewModel::Supported,
                label: "Supported",
                detail: None,
            },
            CapabilityStatus::Limited { reason } => CapabilityStatusViewModel {
                kind: CapabilityKindViewModel::Limited,
                label: "Limited",
                detail: Some(reason.clone()),
            },
            CapabilityStatus::NeedsPermission { permission } => CapabilityStatusViewModel {
                kind: CapabilityKindViewModel::NeedsPermission,
                label: "Needs permission",
                detail: Some(owned(permission_label(*permission))),
            },
            CapabilityStatus::MissingDependency { name } => CapabilityStatusViewModel {
                kind: CapabilityKindViewModel::MissingDependency,
                label: "Missing dependency",
                detail: Some(name.clone()),
            },
            CapabilityStatus::Unsupported { reason } => CapabilityStatusViewModel {
                kind: CapabilityKindViewModel::Unsupported,
                label: "Unsupported",
                detail: Some(reason.clone()),
            },
        }
    }
}

impl From<&CapabilityStatus> for CapabilityStatusViewModel {
    fn from(status: &CapabilityStatus) -> (view: Self) {
        CapabilityStatusViewModel::from_status(status)
    }
}

impl vstd::std_specs::convert::FromSpecImpl<&CapabilityStatus> for CapabilityStatusViewModel {
    open spec fn obeys_from_spec() -> bool {
        false
    }

    open spec fn from_spec(status: &CapabilityStatus) -> Self {
        vstd::pervasive::arbitrary()
    }
}

/// Presentation state for one capability report.
#[derive(Debug, Clone, PartialEq, Eq)]
pub struct CapabilityViewModel {
    pub status: CapabilityStatusViewModel,
    pub summary: String,
    pub selected_backend: Option<String>,
    pub remediation: Option<RemediationViewModel>,
}

/// Presentation state for one registered feature.
#[derive(Debug, Clone, PartialEq, Eq)]
pub struct FeatureViewModel {
    pub id: String,
    pub label: String,
    pub registered: bool,
    pub enabled: bool,
    pub available: bool,
    pub running: bool,
    pub configurable: bool,
    pub cost: ResourceCostViewModel,
    pub lifecycle: FeatureLifecycleViewModel,
    pub capability: CapabilityViewModel,
}

/// Whether `view` presents `registration`.
pub open spec fn presents_feature(view: FeatureViewModel, registration: ServiceRegistration) -> bool {
    &&& view.id@ == registration.feature.id@
    &&& view.label@ == registration.feature.label@
    &&& view.registered
    &&& view.enabled == registration.enabled
    &&& view.available == registration.available
    &&& view.running == registration.running
    &&& view.configurable == registration.feature.configurable
    &&& view.cost == (ResourceCostViewModel {
        idle: registration.feature.cost.idle,
        interaction: registration.feature.cost.interaction,
        polling: registration.feature.cost.polling,
    })
    &&& view.lifecycle == lifecycle_view(lifecycle_of(registration))
    &&& presents_status(view.capability.status, registration.capability.status)
    &&& view.capability.summary == registration.capability.summary
    &&& view.capability.selected_backend == registration.capability.selected_backend
    &&& match registration.capability.remediation {
        Some(message) => view.capability.remediation matches Some(remediation) && remediation.title
            == remediation_heading(registration.capability.status) && remediation.message == message,
        None => view.capability.remediation is None,
    }
}

impl FeatureViewModel {
    /// The presentation of one registered feature.
    pub fn from_registration(registration: &ServiceRegistration) -> (view: Self)
        ensures
            presents_feature(view, *registration),
    {
        let remediation = match &registration.capability.remediation {
            Some(message) => Some(RemediationViewModel {
                title: remediation_title(&registration.capability.status),
                message: message.clone(),
            }),
            None => None,
        };
        let selected_backend = match &registration.capability.selected_backend {
            Some(backend) => Some(backend.clone()),
            None => None,
        };
        FeatureViewModel {
            id: owned(registration.feature.id),
            label: owned(registration.feature.label),
            registered: true,
            enabled: registration.enabled,
            available: registration.available,
            running: registration.running,
            configurable: registration.feature.configurable,
            cost: ResourceCostViewModel::from(registration.feature.cost),
            lifecycle: FeatureLifecycleViewModel::from(registration.lifecycle()),
            capability: CapabilityViewModel {
                status: CapabilityStatusViewModel::from_status(&registration.capability.status),
                summary: registration.capability.summary.clone(),
                selected_backend,
                remediation,
            },
        }
    }
}

impl From<&ServiceRegistration> for FeatureViewModel {
    fn from(registration: &ServiceRegistration) -> (view: Self) {
        FeatureViewModel::from_registration(registration)
    }
}

impl vstd::std_specs::convert::FromSpecImpl<&ServiceRegistration> for FeatureViewModel {
    open spec fn obeys_from_spec() -> bool {
        false
    }

    open spec fn from_spec(registration: &ServiceRegistration) -> Self {
        vstd::pervasive::arbitrary()
    }
}

/// `yes` or `no`.
pub open spec fn yes_no(value: bool) -> Seq<char> {
    if value { "yes"@ } else { "no"@ }
}

fn yes_no_text(value: bool) -> (text: &'static str)
    ensures
        text@ == yes_no(value),
{
    if value { "yes" } else { "no" }
}

/// A feature's flags as the feature hub names them.
pub open spec fn feature_flags_text(feature: FeatureViewModel) -> Seq<char> {
    "registered "@ + yes_no(feature.registered) + ", enabled "@ + yes_no(feature.enabled) + ", available "@
        + yes_no(feature.available) + ", running "@ + yes_no(feature.running) + ", configurable "@
        + yes_no(feature.configurable)
}

/// A resource cost as its one-line summary names it.
pub open spec fn cost_text(cost: ResourceCostViewModel) -> Seq<char> {
    "Idle: "@ + cost_word(cost.idle) + "; interaction: "@ + cost_word(cost.interaction) + "; polling: "@
        + cost_word(cost.polling)
}

/// The capability a feature hub entry names: the status detail, else its label.
pub open spec fn capability_text(feature: FeatureViewModel) -> Seq<char> {
    match feature.capability.status.detail {
        Some(detail) => detail@,
        None => feature.capability.status.label@,
    }
}

/// The selected backend, when there is one, as the feature hub names it.
pub open spec fn backend_text(feature: FeatureViewModel) -> Seq<char> {
    match feature.capability.selected_backend {
        Some(value) => " Backend: "@ + value@ + "."@,
        None => Seq::empty(),
    }
}

/// The remediation, when there is one, as the feature hub names it.
pub open spec fn remediation_text(feature: FeatureViewModel) -> Seq<char> {
    match feature.capability.remediation {
        Some(value) => " Remediation: "@ + value.message@,
        None => Seq::empty(),
    }
}

/// The text describing a feature in the feature hub: its summary, its
/// state, its cost and capability, and its backend and remediation when
/// there are any.
pub open spec fn feature_subtitle_text(feature: FeatureViewModel) -> Seq<char> {
    feature.capability.summary@ + "\nState: "@ + lifecycle_word(feature.lifecycle)@ + " ("@ + feature_flags_text(feature)
        + ")\nCost: "@ + cost_text(feature.cost) + ". Capability: "@ + capability_text(feature) + "."@
        + backend_text(feature) + remediation_text(feature)
}

fn feature_flags(feature: &FeatureViewModel) -> (text: String)
    ensures
        text@ == feature_flags_text(*feature),
{
    let mut text = owned("registered ");
    text.append(yes_no_text(feature.registered));
    text.append(", enabled ");
    text.append(yes_no_text(feature.enabled));
    text.append(", available ");
    text.append(yes_no_text(feature.available));
    text.append(", running ");
    text.append(yes_no_text(feature.running));
    text.append(", configurable ");
    text.append(yes_no_text(feature.configurable));
    text
}

fn feature_extras(feature: &FeatureViewModel) -> (text: String)
    ensures
        text@ == backend_text(*feature) + remediation_text(*feature),
{
    let mut backend = String::new();
    match &feature.capability.selected_backend {
        Some(value) => {
            backend.append(" Backend: ");
            backend.append(value.as_str());
            backend.append(".");
        },
        None => {},
    }
    assert(backend@ =~= backend_text(*feature));
    let ghost before = backend@;
    match &feature.capability.remediation {
        Some(value) => {
            backend.append(" Remediation: ");
            backend.append(value.message.as_str());
            assert(backend@ =~= before + remediation_text(*feature));
        },
        None => {
            assert(backend@ =~= before + remediation_text(*feature));
        },
    }
    backend
}

/// The text describing a feature in the feature hub.
pub fn feature_subtitle(feature: &FeatureViewModel) -> (text: String)
    ensures
        text@ == feature_subtitle_text(*feature),
{
    let flags = feature_flags(feature);
    let cost = feature.cost.summary();
    let capability = match &feature.capability.status.detail {
        Some(detail) => detail.as_str(),
        None => feature.capability.status.label,
    };
    let extras = feature_extras(feature);
    let mut text = feature.capability.summary.clone();
    text.append("\nState: ");
    text.append(feature.lifecycle.label());
    text.append(" (");
    text.append(flags.as_str());
    text.append(")\nCost: ");
    text.append(cost.as_str());
    text.append(". Capability: ");
    text.append(capability);
    text.append(".");
    let ghost before = text@;
    text.append(extras.as_str());
    assert(text@ =~= before + backend_text(*feature) + remediation_text(*feature));
    text
}

/// Presentation state for one isolated configuration warning.
#[derive(Debug, Clone, PartialEq, Eq)]
pub struct ConfigurationWarningViewModel {
    pub feature_id: String,
    pub message: String,
}

impl ConfigurationWarningViewModel {
    /// The presentation of one warning.
    pub fn from_warning(warning: &ConfigurationWarning) -> (view: Self)
        ensures
            view.feature_id == warning.feature_id,
            view.message == warning.reason,
    {
        ConfigurationWarningViewModel { feature_id: warning.feature_id.clone(), message: warning.reason.clone() }
    }
}

/// Immutable presentation state for the normal Kestrel window.
#[derive(Debug, Clone, PartialEq, Eq)]
pub struct ApplicationViewModel {
    pub features: Vec<FeatureViewModel>,
    pub quick_toggles: Vec<QuickToggleViewModel>,
    pub warnings: Vec<ConfigurationWarningViewModel>,
    pub appearance: AppearancePreference,
    pub autostart: bool,
    pub panel_sections: Vec<PanelSectionViewModel>,
    pub can_undo: bool,
}

/// The first registration for a toggle's feature, if any.
pub open spec fn registration_for(registrations: Seq<ServiceRegistration>, id: QuickToggleId) -> Option<ServiceRegistration>
    decreases registrations.len(),
{
    if registrations.len() == 0 {
        None
    } else if registrations[0].feature.id@ == toggle_feature_id(id)@ {
        Some(registrations[0])
    } else {
        registration_for(registrations.drop_first(), id)
    }
}

fn find_registration<'a>(registrations: &'a [ServiceRegistration], id: QuickToggleId) -> (found: Option<&'a ServiceRegistration>)
    ensures
        match registration_for(registrations@, id) {
            Some(registration) => found matches Some(item) && *item == registration,
            None => found is None,
        },
{
    let feature_id = id.feature_id();
    let mut index: usize = 0;
    assert(registrations@.subrange(0, registrations@.len() as int) =~= registrations@);
    while index < registrations.len()
        invariant
            feature_id == toggle_feature_id(id),
            index <= registrations@.len(),
            registration_for(registrations@, id) == registration_for(registrations@.subrange(index as int, registrations@.len() as int), id),
        decreases registrations@.len() - index,
    {
        let ghost rest = registrations@.subrange(index as int, registrations@.len() as int);
        assert(rest.drop_first() =~= registrations@.subrange(index + 1, registrations@.len() as int));
        assert(rest[0] == registrations@[index as int]);
        if str_equal(registrations[index].feature.id, feature_id) {
            return Some(&registrations[index]);
        }
        index += 1;
    }
    None
}

impl ApplicationViewModel {
    /// Presents every registration, every toggle (beside the registration of
    /// its feature), every warning, and the presentation preferences.
    pub fn new(
        registrations: &[ServiceRegistration],
        quick_toggles: &[QuickToggleSnapshot],
        warnings: &[ConfigurationWarning],
        configuration: &ApplicationConfiguration,
        can_undo: bool,
    ) -> (view: Self)
        ensures
            view.features@.len() == registrations@.len(),
            forall|i: int| 0 <= i < registrations@.len() ==> presents_feature(#[trigger] view.features@[i], registrations@[i]),
            view.quick_toggles@.len() == quick_toggles@.len(),
            forall|i: int| 0 <= i < quick_toggles@.len() ==> presents_toggle(
                #[trigger] view.quick_toggles@[i],
                quick_toggles@[i],
                registration_for(registrations@, quick_toggles@[i].id),
            ),
            view.warnings@.len() == warnings@.len(),
            forall|i: int| 0 <= i < warnings@.len() ==> (#[trigger] view.warnings@[i]).feature_id == warnings@[i].feature_id
                && view.warnings@[i].message == warnings@[i].reason,
            view.appearance == configuration.ui.appearance,
            view.autostart == configuration.startup.autostart,
            view.panel_sections@.len() == configuration.ui.panel_sections@.len(),
            forall|i: int| 0 <= i < configuration.ui.panel_sections@.len() ==> (#[trigger] view.panel_sections@[i]).section
                == configuration.ui.panel_sections@[i].section && view.panel_sections@[i].visible
                == configuration.ui.panel_sections@[i].visible,
            view.can_undo == can_undo,
    {
        let mut features: Vec<FeatureViewModel> = Vec::new();
        let mut index: usize = 0;
        while index < registrations.len()
            invariant
                index <= registrations@.len(),
                features@.len() == index,
                forall|i: int| 0 <= i < index ==> presents_feature(#[trigger] features@[i], registrations@[i]),
            decreases registrations@.len() - index,
        {
            features.push(FeatureViewModel::from_registration(&registrations[index]));
            index += 1;
        }
        let mut toggles: Vec<QuickToggleViewModel> = Vec::new();
        let mut index: usize = 0;
        while index < quick_toggles.len()
            invariant
                index <= quick_toggles@.len(),
                toggles@.len() == index,
                forall|i: int| 0 <= i < index ==> presents_toggle(
                    #[trigger] toggles@[i],
                    quick_toggles@[i],
                    registration_for(registrations@, quick_toggles@[i].id),
                ),
            decreases quick_toggles@.len() - index,
        {
            let snapshot = &quick_toggles[index];
            let registration = find_registration(registrations, snapshot.id);
            toggles.push(QuickToggleViewModel::from_snapshot(snapshot, registration));
            index += 1;
        }
        let mut shown_warnings: Vec<ConfigurationWarningViewModel> = Vec::new();
        let mut index: usize = 0;
        while index < warnings.len()
            invariant
                index <= warnings@.len(),
                shown_warnings@.len() == index,
                forall|i: int| 0 <= i < index ==> (#[trigger] shown_warnings@[i]).feature_id == warnings@[i].feature_id
                    && shown_warnings@[i].message == warnings@[i].reason,
            decreases warnings@.len() - index,
        {
            shown_warnings.push(ConfigurationWarningViewModel::from_warning(&warnings[index]));
            index += 1;
        }
        let sections = &configuration.ui.panel_sections;
        let mut panel_sections: Vec<PanelSectionViewModel> = Vec::new();
        let mut index: usize = 0;
        while index < sections.len()
            invariant
                sections@ == configuration.ui.panel_sections@,
                index <= sections@.len(),
                panel_sections@.len() == index,
                forall|i: int| 0 <= i < index ==> (#[trigger] panel_sections@[i]).section == sections@[i].section
                    && panel_sections@[i].visible == sections@[i].visible,
            decreases sections@.len() - index,
        {
            panel_sections.push(PanelSectionViewModel::from_configuration(&sections[index]));
            index += 1;
        }
        ApplicationViewModel {
            features,
            quick_toggles: toggles,
            warnings: shown_warnings,
            appearance: configuration.ui.appearance,
            autostart: configuration.startup.autostart,
            panel_sections,
            can_undo,
        }
    }
}

} // verus!
