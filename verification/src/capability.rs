//! Capability reports, feature descriptors and static resource costs.

use vstd::prelude::*;

use crate::text::{copy_optional, copy_texts, optional_text, owned, texts};

verus! {

/// A user-facing category of permission or access requirement.
#[derive(Debug, Clone, Copy, PartialEq, Eq, Structural)]
pub enum Permission {
    ScreenCapture,
    GlobalShortcut,
    InputInjection,
    HardwareControl,
    SessionControl,
    DesktopSettings,
    NetworkControl,
    FileDeletion,
    RemovableMedia,
    Camera,
    Notifications,
}

/// The runtime status of a feature on the current Linux session.
#[derive(Debug, Clone)]
pub enum CapabilityStatus {
    /// The feature can run without additional setup.
    Supported,
    /// The feature runs with documented limitations.
    Limited { reason: String },
    /// The feature requires a portal grant, udev rule, or other permission.
    NeedsPermission { permission: Permission },
    /// The feature requires an optional executable, service, or library.
    MissingDependency { name: String },
    /// The desktop, compositor, hardware, or package mode cannot support the feature.
    Unsupported { reason: String },
}

/// The mathematical content of a capability status.
pub enum StatusModel {
    Supported,
    Limited(Seq<char>),
    NeedsPermission(Permission),
    MissingDependency(Seq<char>),
    Unsupported(Seq<char>),
}

impl View for CapabilityStatus {
    type V = StatusModel;

    open spec fn view(&self) -> StatusModel {
        match self {
            CapabilityStatus::Supported => StatusModel::Supported,
            CapabilityStatus::Limited { reason } => StatusModel::Limited(reason@),
            CapabilityStatus::NeedsPermission { permission } => StatusModel::NeedsPermission(
                *permission,
            ),
            CapabilityStatus::MissingDependency { name } => StatusModel::MissingDependency(name@),
            CapabilityStatus::Unsupported { reason } => StatusModel::Unsupported(reason@),
        }
    }
}

impl CapabilityStatus {
    /// A copy of this status with equal contents.
    pub fn duplicate(&self) -> (copy: Self)
        ensures
            copy@ == self@,
    {
        match self {
            CapabilityStatus::Supported => CapabilityStatus::Supported,
            CapabilityStatus::Limited { reason } => CapabilityStatus::Limited {
                reason: reason.clone(),
            },
            CapabilityStatus::NeedsPermission { permission } => CapabilityStatus::NeedsPermission {
                permission: *permission,
            },
            CapabilityStatus::MissingDependency { name } => CapabilityStatus::MissingDependency {
                name: name.clone(),
            },
            CapabilityStatus::Unsupported { reason } => CapabilityStatus::Unsupported {
                reason: reason.clone(),
            },
        }
    }
}

impl PartialEq for CapabilityStatus {
    fn eq(&self, other: &Self) -> (equal: bool) {
        match self {
            CapabilityStatus::Supported => matches!(other, CapabilityStatus::Supported),
            CapabilityStatus::Limited { reason } => match other {
                CapabilityStatus::Limited { reason: theirs } => reason.eq(theirs),
                _ => false,
            },
            CapabilityStatus::NeedsPermission { permission } => match other {
                CapabilityStatus::NeedsPermission { permission: theirs } => *permission == *theirs,
                _ => false,
            },
            CapabilityStatus::MissingDependency { name } => match other {
                CapabilityStatus::MissingDependency { name: theirs } => name.eq(theirs),
                _ => false,
            },
            CapabilityStatus::Unsupported { reason } => match other {
                CapabilityStatus::Unsupported { reason: theirs } => reason.eq(theirs),
                _ => false,
            },
        }
    }
}

impl vstd::std_specs::cmp::PartialEqSpecImpl for CapabilityStatus {
    open spec fn obeys_eq_spec() -> bool {
        true
    }

    open spec fn eq_spec(&self, other: &Self) -> bool {
        self@ == other@
    }
}

impl Eq for CapabilityStatus {

}

/// Whether a status lets its feature run: supported, or supported with limits.
pub open spec fn status_available(status: CapabilityStatus) -> bool {
    status is Supported || status is Limited
}

/// Returns whether a status lets its feature run.
pub fn is_available(status: &CapabilityStatus) -> (available: bool)
    ensures
        available == status_available(*status),
{
    match status {
        CapabilityStatus::Supported => true,
        CapabilityStatus::Limited { .. } => true,
        _ => false,
    }
}

/// Non-sensitive evidence that supports a capability report.
#[derive(Debug, Clone)]
pub struct CapabilityEvidence {
    pub key: String,
    pub value: String,
}

impl CapabilityEvidence {
    /// Builds evidence from a stable key and a sanitized value.
    pub fn new(key: &str, value: &str) -> (evidence: Self)
        ensures
            evidence.key@ == key@,
            evidence.value@ == value@,
    {
        CapabilityEvidence { key: owned(key), value: owned(value) }
    }

    /// A copy of this evidence with equal contents.
    pub fn duplicate(&self) -> (copy: Self)
        ensures
            copy@ == self@,
    {
        CapabilityEvidence { key: self.key.clone(), value: self.value.clone() }
    }
}

impl View for CapabilityEvidence {
    type V = (Seq<char>, Seq<char>);

    open spec fn view(&self) -> (Seq<char>, Seq<char>) {
        (self.key@, self.value@)
    }
}

/// The key and value of each evidence item.
pub open spec fn evidence_view(list: Seq<CapabilityEvidence>) -> Seq<(Seq<char>, Seq<char>)> {
    list.map_values(|item: CapabilityEvidence| item@)
}

/// A copy of a list of evidence items.
pub fn copy_evidence(list: &Vec<CapabilityEvidence>) -> (copy: Vec<CapabilityEvidence>)
    ensures
        evidence_view(copy@) == evidence_view(list@),
{
    let mut copy: Vec<CapabilityEvidence> = Vec::new();
    let mut index: usize = 0;
    while index < list.len()
        invariant
            index <= list@.len(),
            evidence_view(copy@) == evidence_view(list@.subrange(0, index as int)),
        decreases list@.len() - index,
    {
        copy.push(list[index].duplicate());
        assert(evidence_view(list@.subrange(0, index + 1)) =~= evidence_view(
            list@.subrange(0, index as int),
        ).push(list@[index as int]@));
        assert(evidence_view(copy@) =~= evidence_view(list@.subrange(0, index + 1)));
        index += 1;
    }
    assert(list@.subrange(0, list@.len() as int) =~= list@);
    copy
}

/// A resource-use level for a feature lifecycle operation.
#[derive(Debug, Clone, Copy, PartialEq, Eq, Structural)]
pub enum CostLevel {
    Zero,
    Low,
    Moderate,
}

impl Default for CostLevel {
    fn default() -> (level: Self)
        ensures
            level == CostLevel::Zero,
    {
        CostLevel::Zero
    }
}

/// Static resource-use metadata for a feature.
#[derive(Debug, Clone, Copy, PartialEq, Eq, Structural)]
pub struct ResourceCost {
    pub idle: CostLevel,
    pub interaction: CostLevel,
    pub polling: CostLevel,
}

impl ResourceCost {
    /// Builds resource metadata for idle, interaction, and polling work.
    pub fn new(idle: CostLevel, interaction: CostLevel, polling: CostLevel) -> (cost: Self)
        ensures
            cost.idle == idle,
            cost.interaction == interaction,
            cost.polling == polling,
    {
        ResourceCost { idle, interaction, polling }
    }
}

impl Default for ResourceCost {
    fn default() -> (cost: Self)
        ensures
            cost.idle == CostLevel::Zero,
            cost.interaction == CostLevel::Zero,
            cost.polling == CostLevel::Zero,
    {
        ResourceCost { idle: CostLevel::Zero, interaction: CostLevel::Zero, polling: CostLevel::Zero }
    }
}

/// A structured, UI-agnostic explanation of a feature's current availability.
#[derive(Debug, Clone)]
pub struct CapabilityReport {
    pub feature_id: &'static str,
    pub status: CapabilityStatus,
    pub summary: String,
    pub selected_backend: Option<String>,
    pub alternatives_considered: Vec<String>,
    pub remediation: Option<String>,
    pub evidence: Vec<CapabilityEvidence>,
}

/// The mathematical content of a capability report.
pub struct ReportModel {
    pub feature_id: Seq<char>,
    pub status: StatusModel,
    pub summary: Seq<char>,
    pub selected_backend: Option<Seq<char>>,
    pub alternatives_considered: Seq<Seq<char>>,
    pub remediation: Option<Seq<char>>,
    pub evidence: Seq<(Seq<char>, Seq<char>)>,
}

impl View for CapabilityReport {
    type V = ReportModel;

    open spec fn view(&self) -> ReportModel {
        ReportModel {
            feature_id: self.feature_id@,
            status: self.status@,
            summary: self.summary@,
            selected_backend: optional_text(self.selected_backend),
            alternatives_considered: texts(self.alternatives_considered@),
            remediation: optional_text(self.remediation),
            evidence: evidence_view(self.evidence@),
        }
    }
}

impl CapabilityReport {
    /// A copy of this report with equal contents.
    pub fn duplicate(&self) -> (copy: Self)
        ensures
            copy@ == self@,
            copy.feature_id == self.feature_id,
    {
        CapabilityReport {
            feature_id: self.feature_id,
            status: self.status.duplicate(),
            summary: self.summary.clone(),
            selected_backend: copy_optional(&self.selected_backend),
            alternatives_considered: copy_texts(&self.alternatives_considered),
            remediation: copy_optional(&self.remediation),
            evidence: copy_evidence(&self.evidence),
        }
    }

    /// Builds a report from the feature's current status and user-facing summary.
    pub fn new(feature_id: &'static str, status: CapabilityStatus, summary: &str) -> (report: Self)
        ensures
            report.feature_id == feature_id,
            report.status == status,
            report.summary@ == summary@,
            report.selected_backend is None,
            report.alternatives_considered@.len() == 0,
            report.remediation is None,
            report.evidence@.len() == 0,
    {
        CapabilityReport {
            feature_id,
            status,
            summary: owned(summary),
            selected_backend: None,
            alternatives_considered: Vec::new(),
            remediation: None,
            evidence: Vec::new(),
        }
    }

    /// Adds the adapter actually selected for this report.
    pub fn with_selected_backend(self, backend: &str) -> (report: Self)
        ensures
            report == (CapabilityReport { selected_backend: report.selected_backend, ..self }),
            report.selected_backend matches Some(selected) && selected@ == backend@,
    {
        let mut report = self;
        report.selected_backend = Some(owned(backend));
        report
    }

    /// Adds a user-facing action that can address a limited capability.
    pub fn with_remediation(self, remediation: &str) -> (report: Self)
        ensures
            report == (CapabilityReport { remediation: report.remediation, ..self }),
            report.remediation matches Some(text) && text@ == remediation@,
    {
        let mut report = self;
        report.remediation = Some(owned(remediation));
        report
    }

    /// Records an alternative that was considered but not selected.
    pub fn with_alternative(self, alternative: &str) -> (report: Self)
        ensures
            report == (CapabilityReport {
                alternatives_considered: report.alternatives_considered,
                ..self
            }),
            report.alternatives_considered@.len() == self.alternatives_considered@.len() + 1,
            report.alternatives_considered@.drop_last() == self.alternatives_considered@,
            report.alternatives_considered@.last()@ == alternative@,
    {
        let mut report = self;
        report.alternatives_considered.push(owned(alternative));
        report
    }

    /// Records sanitized evidence without performing any I/O.
    pub fn with_evidence(self, evidence: CapabilityEvidence) -> (report: Self)
        ensures
            report == (CapabilityReport { evidence: report.evidence, ..self }),
            report.evidence@ == self.evidence@.push(evidence),
    {
        let mut report = self;
        report.evidence.push(evidence);
        report
    }
}

/// Metadata that every independently enabled Kestrel feature must provide.
#[derive(Debug, Clone)]
pub struct FeatureSpec {
    pub id: &'static str,
    pub label: &'static str,
    pub capability: CapabilityStatus,
    pub configurable: bool,
    pub cost: ResourceCost,
}

impl FeatureSpec {
    /// Builds a feature descriptor with configurable, resource-free defaults.
    pub fn new(id: &'static str, label: &'static str, capability: CapabilityStatus) -> (feature:
        Self)
        ensures
            feature.id == id,
            feature.label == label,
            feature.capability == capability,
            feature.configurable,
            feature.cost == (ResourceCost {
                idle: CostLevel::Zero,
                interaction: CostLevel::Zero,
                polling: CostLevel::Zero,
            }),
    {
        FeatureSpec { id, label, capability, configurable: true, cost: ResourceCost::default() }
    }

    /// Marks whether the feature exposes user configuration.
    pub fn with_configurable(self, configurable: bool) -> (feature: Self)
        ensures
            feature == (FeatureSpec { configurable, ..self }),
    {
        let mut feature = self;
        feature.configurable = configurable;
        feature
    }

    /// Supplies static resource-use metadata.
    pub fn with_cost(self, cost: ResourceCost) -> (feature: Self)
        ensures
            feature == (FeatureSpec { cost, ..self }),
    {
        let mut feature = self;
        feature.cost = cost;
        feature
    }
}

} // verus!
