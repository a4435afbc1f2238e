//! Feature registry and lifecycle primitives.

use vstd::prelude::*;

use crate::capability::{CapabilityReport, FeatureSpec, is_available, status_available};
use crate::text::{owned, str_equal};

verus! {

/// Produces a non-interactive capability report for one feature adapter.
pub trait CapabilityProbe {
    fn probe(&self) -> CapabilityReport;
}

/// A fixed report useful for composition tests and unsupported adapter paths.
#[derive(Debug, Clone)]
pub struct StaticCapabilityProbe {
    report: CapabilityReport,
}

impl StaticCapabilityProbe {
    /// Creates a probe that returns the supplied report without performing I/O.
    pub fn new(report: CapabilityReport) -> (probe: Self)
        ensures
            probe.fixed_report() == report,
    {
        StaticCapabilityProbe { report }
    }

    /// The report this probe hands out.
    pub closed spec fn fixed_report(&self) -> CapabilityReport {
        self.report
    }

    /// A copy of the fixed report.
    pub fn report_copy(&self) -> (report: CapabilityReport)
        ensures
            report@ == self.fixed_report()@,
            report.feature_id == self.fixed_report().feature_id,
    {
        self.report.duplicate()
    }
}

impl CapabilityProbe for StaticCapabilityProbe {
    fn probe(&self) -> (report: CapabilityReport)
        ensures
            report@ == self.fixed_report()@,
            report.feature_id == self.fixed_report().feature_id,
    {
        self.report_copy()
    }
}

/// The current lifecycle stage of a registered feature.
#[derive(Debug, Clone, Copy, PartialEq, Eq, Structural)]
pub enum ServiceLifecycle {
    Registered,
    Available,
    Unavailable,
    Running,
}

/// The current state for one known Kestrel feature.
#[derive(Debug, Clone)]
pub struct ServiceRegistration {
    pub feature: FeatureSpec,
    pub capability: CapabilityReport,
    pub enabled: bool,
    pub available: bool,
    pub running: bool,
}

/// A registration or lifecycle operation failed.
#[derive(Debug, Clone)]
pub enum RegistryError {
    FeatureIdMismatch { feature_id: &'static str, report_feature_id: &'static str },
    DuplicateFeature { feature_id: &'static str },
    UnknownFeature { feature_id: String },
}

/// The mathematical content of a registry error.
pub enum RegistryErrorModel {
    FeatureIdMismatch(Seq<char>, Seq<char>),
    DuplicateFeature(Seq<char>),
    UnknownFeature(Seq<char>),
}

impl View for RegistryError {
    type V = RegistryErrorModel;

    open spec fn view(&self) -> RegistryErrorModel {
        match self {
            RegistryError::FeatureIdMismatch { feature_id, report_feature_id } => RegistryErrorModel::FeatureIdMismatch(feature_id@, report_feature_id@),
            RegistryError::DuplicateFeature { feature_id } => RegistryErrorModel::DuplicateFeature(feature_id@),
            RegistryError::UnknownFeature { feature_id } => RegistryErrorModel::UnknownFeature(feature_id@),
        }
    }
}

impl PartialEq for RegistryError {
    fn eq(&self, other: &Self) -> (equal: bool) {
        match self {
            RegistryError::FeatureIdMismatch { feature_id, report_feature_id } => match other {
                RegistryError::FeatureIdMismatch { feature_id: a, report_feature_id: b } => str_equal(feature_id, a) && str_equal(report_feature_id, b),
                _ => false,
            },
            RegistryError::DuplicateFeature { feature_id } => match other {
                RegistryError::DuplicateFeature { feature_id: a } => str_equal(feature_id, a),
                _ => false,
            },
            RegistryError::UnknownFeature { feature_id } => match other {
                RegistryError::UnknownFeature { feature_id: a } => feature_id.eq(a),
                _ => false,
            },
        }
    }
}

impl vstd::std_specs::cmp::PartialEqSpecImpl for RegistryError {
    open spec fn obeys_eq_spec() -> bool {
        true
    }

    open spec fn eq_spec(&self, other: &Self) -> bool {
        self@ == other@
    }
}

impl Eq for RegistryError {

}

/// A registration's lifecycle stage: running first, then unavailable, then
/// available when enabled, else merely registered.
pub open spec fn lifecycle_of(registration: ServiceRegistration) -> ServiceLifecycle {
    if registration.running {
        ServiceLifecycle::Running
    } else if !registration.available {
        ServiceLifecycle::Unavailable
    } else if registration.enabled {
        ServiceLifecycle::Available
    } else {
        ServiceLifecycle::Registered
    }
}

/// A registration is consistent when its cached availability follows its
/// report, the report is about its feature, and it runs only while enabled
/// and available.
pub open spec fn consistent_registration(registration: ServiceRegistration) -> bool {
    &&& registration.available == status_available(registration.capability.status)
    &&& registration.capability.feature_id@ == registration.feature.id@
    &&& registration.running ==> registration.enabled && registration.available
}

/// The registration a feature gets from a matching report.
pub open spec fn fresh_registration(
    registration: ServiceRegistration,
    feature: FeatureSpec,
    capability: CapabilityReport,
    enabled: bool,
) -> bool {
    &&& registration.feature == feature
    &&& registration.capability == capability
    &&& registration.enabled == enabled
    &&& registration.available == status_available(capability.status)
    &&& !registration.running
}

impl ServiceRegistration {
    /// Builds a registration from feature metadata and a matching probe result.
    pub fn new(feature: FeatureSpec, capability: CapabilityReport, enabled: bool) -> (result: Result<
        Self,
        RegistryError,
    >)
        ensures
            feature.id@ == capability.feature_id@ <==> result is Ok,
            result matches Ok(registration) ==> fresh_registration(
                registration,
                feature,
                capability,
                enabled,
            ) && consistent_registration(registration),
            result matches Err(error) ==> error == (RegistryError::FeatureIdMismatch {
                feature_id: feature.id,
                report_feature_id: capability.feature_id,
            }),
    {
        if !str_equal(feature.id, capability.feature_id) {
            return Err(
                RegistryError::FeatureIdMismatch {
                    feature_id: feature.id,
                    report_feature_id: capability.feature_id,
                },
            );
        }
        let available = is_available(&capability.status);
        Ok(ServiceRegistration { feature, available, capability, enabled, running: false })
    }

    /// Returns the feature's current lifecycle stage without hiding enablement.
    pub fn lifecycle(&self) -> (stage: ServiceLifecycle)
        ensures
            stage == lifecycle_of(*self),
    {
        if self.running {
            ServiceLifecycle::Running
        } else if !self.available {
            ServiceLifecycle::Unavailable
        } else if self.enabled {
            ServiceLifecycle::Available
        } else {
            ServiceLifecycle::Registered
        }
    }

    /// Replaces the cached report; a feature that lost its capability stops.
    fn update_capability(&mut self, capability: CapabilityReport)
        ensures
            final(self).feature == old(self).feature,
            final(self).capability == capability,
            final(self).enabled == old(self).enabled,
            final(self).available == status_available(capability.status),
            final(self).running == (old(self).running && status_available(capability.status)),
    {
        self.available = is_available(&capability.status);
        self.capability = capability;
        if !self.available {
            self.running = false;
        }
    }
}

/// Whether some registration in `registrations` is for `feature_id`.
pub open spec fn registered(registrations: Seq<ServiceRegistration>, feature_id: Seq<char>) -> bool {
    exists|i: int| 0 <= i < registrations.len() && registrations[i].feature.id@ == feature_id
}

/// The position of the registration for `feature_id`.
pub open spec fn position_of(registrations: Seq<ServiceRegistration>, feature_id: Seq<char>) -> int {
    choose|i: int| 0 <= i < registrations.len() && registrations[i].feature.id@ == feature_id
}

/// Registry-wide consistency: every registration is consistent and no two
/// registrations are for the same feature.
pub open spec fn consistent_registrations(registrations: Seq<ServiceRegistration>) -> bool {
    &&& forall|i: int| 0 <= i < registrations.len() ==> consistent_registration(#[trigger] registrations[i])
    &&& forall|i: int, j: int|
        0 <= i < j < registrations.len() ==> registrations[i].feature.id@ != registrations[j].feature.id@
}

/// A registration after the user's enablement preference changed: disabling
/// stops it.
pub open spec fn with_enabled(registration: ServiceRegistration, enabled: bool) -> ServiceRegistration {
    ServiceRegistration { enabled, running: registration.running && enabled, ..registration }
}

/// A registration after starting: it runs exactly when enabled and available.
pub open spec fn started(registration: ServiceRegistration) -> ServiceRegistration {
    ServiceRegistration { running: registration.enabled && registration.available, ..registration }
}

/// A registration after a fresh report: availability follows the report, and
/// a feature that lost its capability stops.
pub open spec fn refreshed(registration: ServiceRegistration, report: CapabilityReport) -> ServiceRegistration {
    ServiceRegistration {
        capability: report,
        available: status_available(report.status),
        running: registration.running && status_available(report.status),
        ..registration
    }
}

/// The IDs of the configurable features among `registrations`, in
/// registration order.
pub open spec fn configurable_ids(registrations: Seq<ServiceRegistration>) -> Seq<&'static str>
    decreases registrations.len(),
{
    if registrations.len() == 0 {
        Seq::empty()
    } else {
        let rest = configurable_ids(registrations.drop_last());
        if registrations.last().feature.configurable {
            rest.push(registrations.last().feature.id)
        } else {
            rest
        }
    }
}

/// What one `register_probe` call does to the registrations: a successful
/// one appends a stopped registration of the feature with its enablement, a
/// failed one changes nothing; either way the registrations stay consistent.
pub open spec fn registration_step(
    before: Seq<ServiceRegistration>,
    after: Seq<ServiceRegistration>,
    feature: FeatureSpec,
    enabled: bool,
    succeeded: bool,
) -> bool {
    &&& consistent_registrations(after)
    &&& succeeded ==> after.len() == before.len() + 1 && after.drop_last() == before && after.last().feature == feature
        && after.last().enabled == enabled && !after.last().running
    &&& !succeeded ==> after == before
}

/// The features, with their enablement, of the calls that succeeded, in
/// call order.
pub open spec fn succeeded_calls(calls: Seq<(FeatureSpec, bool)>, succeeded: Seq<bool>) -> Seq<(FeatureSpec, bool)>
    decreases calls.len(),
{
    if calls.len() == 0 || succeeded.len() != calls.len() {
        Seq::empty()
    } else {
        let rest = succeeded_calls(calls.drop_last(), succeeded.drop_last());
        if succeeded.last() {
            rest.push(calls.last())
        } else {
            rest
        }
    }
}

/// The feature and enablement of a registration.
pub open spec fn registered_as() -> spec_fn(ServiceRegistration) -> (FeatureSpec, bool) {
    |registration: ServiceRegistration| (registration.feature, registration.enabled)
}

/// A registry built only by `register_probe` calls, from an empty one, holds
/// exactly one registration per call that succeeded, in call order, each
/// with its feature and enablement and none of them running, and no two for
/// the same feature. `states[k]` are the registrations before call `k`.
pub proof fn lemma_registrations_follow_calls(
    states: Seq<Seq<ServiceRegistration>>,
    calls: Seq<(FeatureSpec, bool)>,
    succeeded: Seq<bool>,
)
    requires
        states.len() == calls.len() + 1,
        succeeded.len() == calls.len(),
        states[0].len() == 0,
        forall|k: int| 0 <= k < calls.len() ==> registration_step(states[k], #[trigger] states[k + 1], calls[k].0, calls[k].1, succeeded[k]),
    ensures
        states.last().map_values(registered_as()) == succeeded_calls(calls, succeeded),
        forall|i: int| 0 <= i < states.last().len() ==> !(#[trigger] states.last()[i]).running,
        forall|i: int, j: int| 0 <= i < j < states.last().len() ==> states.last()[i].feature.id@ != states.last()[j].feature.id@,
    decreases calls.len(),
{
    let last = states.last();
    if calls.len() == 0 {
        assert(last.map_values(registered_as()) =~= Seq::<(FeatureSpec, bool)>::empty());
    } else {
        let n = calls.len() - 1;
        let earlier = states.drop_last();
        assert forall|k: int| 0 <= k < n implies registration_step(earlier[k], #[trigger] earlier[k + 1], calls.drop_last()[k].0, calls.drop_last()[k].1, succeeded.drop_last()[k]) by {
            assert(registration_step(states[k], states[k + 1], calls[k].0, calls[k].1, succeeded[k]));
        }
        lemma_registrations_follow_calls(earlier, calls.drop_last(), succeeded.drop_last());
        let before = states[n];
        assert(earlier.last() == before);
        assert(registration_step(states[n], states[n + 1], calls[n].0, calls[n].1, succeeded[n]));
        assert(states[n + 1] == last);
        if succeeded[n] {
            assert(last.map_values(registered_as()) =~= before.map_values(registered_as()).push(calls.last()));
            assert forall|i: int| 0 <= i < last.len() implies !(#[trigger] last[i]).running by {
                if i < before.len() {
                    assert(last[i] == before[i]);
                }
            }
        }
    }
}

/// Registry state used by the application composition root.
pub struct FeatureRegistry<P> {
    registrations: Vec<ServiceRegistration>,
    probes: Vec<P>,
}

impl<P> FeatureRegistry<P> {
    #[verifier::type_invariant]
    spec fn registry_invariant(self) -> bool {
        &&& self.registrations@.len() == self.probes@.len()
        &&& consistent_registrations(self.registrations@)
    }

    /// The registrations, in registration order.
    pub closed spec fn registration_seq(&self) -> Seq<ServiceRegistration> {
        self.registrations@
    }

    /// The probes, in registration order.
    pub closed spec fn probe_seq(&self) -> Seq<P> {
        self.probes@
    }

    /// An empty registry.
    pub fn new() -> (registry: Self)
        ensures
            registry.registration_seq().len() == 0,
            registry.probe_seq().len() == 0,
    {
        FeatureRegistry { registrations: Vec::new(), probes: Vec::new() }
    }

    /// Returns all registered features in registration order.
    pub fn registrations(&self) -> (iterator: std::slice::Iter<'_, ServiceRegistration>)
        ensures
            vstd::std_specs::slice::into_iter_elts(iterator) == self.registration_seq(),
    {
        let iterator = self.registrations.iter();
        iterator
    }

    /// The registrations as a slice, in registration order.
    pub fn registration_list(&self) -> (list: &[ServiceRegistration])
        ensures
            list@ == self.registration_seq(),
            consistent_registrations(list@),
    {
        proof {
            use_type_invariant(self);
        }
        self.registrations.as_slice()
    }

    /// Whether the feature `feature_id` is registered and running.
    pub fn is_running(&self, feature_id: &str) -> (running: bool)
        ensures
            running == exists|i: int| 0 <= i < self.registration_seq().len()
                && (#[trigger] self.registration_seq()[i]).feature.id@ == feature_id@ && self.registration_seq()[i].running,
    {
        let list = self.registrations.as_slice();
        let mut index: usize = 0;
        while index < list.len()
            invariant
                list@ == self.registration_seq(),
                index <= list@.len(),
                forall|i: int| 0 <= i < index ==> !((#[trigger] list@[i]).feature.id@ == feature_id@ && list@[i].running),
            decreases list@.len() - index,
        {
            if list[index].running && str_equal(list[index].feature.id, feature_id) {
                return true;
            }
            index += 1;
        }
        false
    }

    /// The IDs of the configurable features, in registration order: those a
    /// preset decides.
    pub fn configurable_feature_ids(&self) -> (ids: Vec<&'static str>)
        ensures
            ids@ == configurable_ids(self.registration_seq()),
    {
        let list = self.registrations.as_slice();
        let mut ids: Vec<&'static str> = Vec::new();
        let mut index: usize = 0;
        while index < list.len()
            invariant
                list@ == self.registration_seq(),
                index <= list@.len(),
                ids@ == configurable_ids(list@.subrange(0, index as int)),
            decreases list@.len() - index,
        {
            proof {
                let next = list@.subrange(0, index + 1);
                assert(next.drop_last() =~= list@.subrange(0, index as int));
                assert(next.last() == list@[index as int]);
            }
            if list[index].feature.configurable {
                ids.push(list[index].feature.id);
            }
            index += 1;
        }
        assert(list@.subrange(0, list@.len() as int) =~= list@);
        ids
    }

    fn take_parts(&mut self) -> (parts: (Vec<ServiceRegistration>, Vec<P>))
        ensures
            parts.0@ == old(self).registration_seq(),
            parts.1@ == old(self).probe_seq(),
            parts.0@.len() == parts.1@.len(),
            consistent_registrations(parts.0@),
    {
        proof {
            use_type_invariant(&*self);
        }
        let mut taken = FeatureRegistry::new();
        std::mem::swap(self, &mut taken);
        proof {
            use_type_invariant(&taken);
        }
        let FeatureRegistry { registrations, probes } = taken;
        (registrations, probes)
    }

    /// Registers a feature with the report its probe gave, caches that report,
    /// and does not start the feature.
    pub fn register_report(
        &mut self,
        feature: FeatureSpec,
        enabled: bool,
        report: CapabilityReport,
        probe: P,
    ) -> (result: Result<(), RegistryError>)
        ensures
            consistent_registrations(final(self).registration_seq()),
            registered(old(self).registration_seq(), feature.id@) ==> result == Err::<(), RegistryError>(
                RegistryError::DuplicateFeature { feature_id: feature.id },
            ),
            !registered(old(self).registration_seq(), feature.id@) && report.feature_id@
                != feature.id@ ==> result == Err::<(), RegistryError>(
                RegistryError::FeatureIdMismatch {
                    feature_id: feature.id,
                    report_feature_id: report.feature_id,
                },
            ),
            result is Err ==> final(self).registration_seq() == old(self).registration_seq()
                && final(self).probe_seq() == old(self).probe_seq(),
            result is Ok <==> !registered(old(self).registration_seq(), feature.id@)
                && report.feature_id@ == feature.id@,
            result is Ok ==> final(self).registration_seq().len() == old(self).registration_seq().len() + 1
                && final(self).registration_seq().drop_last() == old(self).registration_seq()
                && fresh_registration(final(self).registration_seq().last(), feature, report, enabled)
                && final(self).probe_seq() == old(self).probe_seq().push(probe),
    {
        proof {
            use_type_invariant(&*self);
        }
        match self.find(feature.id) {
            Some(index) => {
                return Err(RegistryError::DuplicateFeature { feature_id: feature.id });
            },
            None => {},
        }
        let registration = match ServiceRegistration::new(feature, report, enabled) {
            Ok(registration) => registration,
            Err(error) => {
                return Err(error);
            },
        };
        let (mut registrations, mut probes) = self.take_parts();
        let ghost before = registrations@;
        registrations.push(registration);
        probes.push(probe);
        proof {
            assert(registrations@.drop_last() =~= before);
            assert forall|i: int, j: int| 0 <= i < j < registrations@.len() implies registrations@[i].feature.id@
                != registrations@[j].feature.id@ by {
                if j == before.len() {
                    assert(registrations@[i] == before[i]);
                }
            }
        }
        *self = FeatureRegistry { registrations, probes };
        Ok(())
    }

    /// Applies a fresh report to the registration for `feature_id`.
    pub fn apply_report(&mut self, feature_id: &str, report: CapabilityReport) -> (result: Result<
        &ServiceRegistration,
        RegistryError,
    >)
        ensures
            consistent_registrations(final(self).registration_seq()),
            final(self).probe_seq() == old(self).probe_seq(),
            !registered(old(self).registration_seq(), feature_id@) ==> result is Err
                && result->Err_0@ == RegistryErrorModel::UnknownFeature(feature_id@),
            registered(old(self).registration_seq(), feature_id@) && report.feature_id@ != feature_id@
                ==> result is Err && result->Err_0@ == RegistryErrorModel::FeatureIdMismatch(
                feature_id@,
                report.feature_id@,
            ),
            result is Err ==> final(self).registration_seq() == old(self).registration_seq(),
            result is Ok <==> registered(old(self).registration_seq(), feature_id@)
                && report.feature_id@ == feature_id@,
            result matches Ok(registration) ==> {
                let i = position_of(old(self).registration_seq(), feature_id@);
                &&& final(self).registration_seq() == old(self).registration_seq().update(
                    i,
                    refreshed(old(self).registration_seq()[i], report),
                )
                &&& *registration == final(self).registration_seq()[i]
            },
    {
        proof {
            use_type_invariant(&*self);
        }
        let index = match self.find(feature_id) {
            Some(index) => index,
            None => {
                return Err(RegistryError::UnknownFeature { feature_id: owned(feature_id) });
            },
        };
        proof {
            let i = position_of(self.registrations@, feature_id@);
            assert(self.registrations@[i].feature.id@ == feature_id@);
            assert(i == index as int);
        }
        if !str_equal(report.feature_id, self.registrations[index].feature.id) {
            return Err(
                RegistryError::FeatureIdMismatch {
                    feature_id: self.registrations[index].feature.id,
                    report_feature_id: report.feature_id,
                },
            );
        }
        let (mut registrations, probes) = self.take_parts();
        let ghost before = registrations@;
        let mut registration = registrations.remove(index);
        registration.update_capability(report);
        registrations.insert(index, registration);
        proof {
            assert(registrations@ =~= before.update(index as int, refreshed(before[index as int], report)));
            assert forall|i: int, j: int| 0 <= i < j < registrations@.len() implies registrations@[i].feature.id@
                != registrations@[j].feature.id@ by {
                assert(registrations@[i].feature == before[i].feature);
                assert(registrations@[j].feature == before[j].feature);
            }
            assert forall|i: int| 0 <= i < registrations@.len() implies consistent_registration(
                #[trigger] registrations@[i],
            ) by {
                if i != index {
                    assert(registrations@[i] == before[i]);
                }
            }
        }
        *self = FeatureRegistry { registrations, probes };
        Ok(&self.registrations[index])
    }

    /// Applies a user's enablement preference without assuming availability.
    pub fn set_enabled(&mut self, feature_id: &str, enabled: bool) -> (result: Result<
        &ServiceRegistration,
        RegistryError,
    >)
        ensures
            consistent_registrations(final(self).registration_seq()),
            final(self).probe_seq() == old(self).probe_seq(),
            result is Ok <==> registered(old(self).registration_seq(), feature_id@),
            result is Err ==> final(self).registration_seq() == old(self).registration_seq()
                && result->Err_0@ == RegistryErrorModel::UnknownFeature(feature_id@),
            result matches Ok(registration) ==> {
                let i = position_of(old(self).registration_seq(), feature_id@);
                &&& final(self).registration_seq() == old(self).registration_seq().update(
                    i,
                    with_enabled(old(self).registration_seq()[i], enabled),
                )
                &&& *registration == final(self).registration_seq()[i]
            },
    {
        proof {
            use_type_invariant(&*self);
        }
        let index = match self.find(feature_id) {
            Some(index) => index,
            None => {
                return Err(RegistryError::UnknownFeature { feature_id: owned(feature_id) });
            },
        };
        proof {
            let i = position_of(self.registrations@, feature_id@);
            assert(self.registrations@[i].feature.id@ == feature_id@);
            assert(i == index as int);
        }
        let (mut registrations, probes) = self.take_parts();
        let ghost before = registrations@;
        let mut registration = registrations.remove(index);
        registration.enabled = enabled;
        if !enabled {
            registration.running = false;
        }
        registrations.insert(index, registration);
        proof {
            assert(registrations@ =~= before.update(index as int, with_enabled(before[index as int], enabled)));
            assert forall|i: int, j: int| 0 <= i < j < registrations@.len() implies registrations@[i].feature.id@
                != registrations@[j].feature.id@ by {
                assert(registrations@[i].feature == before[i].feature);
                assert(registrations@[j].feature == before[j].feature);
            }
            assert forall|i: int| 0 <= i < registrations@.len() implies consistent_registration(
                #[trigger] registrations@[i],
            ) by {
                if i != index {
                    assert(registrations@[i] == before[i]);
                }
            }
        }
        *self = FeatureRegistry { registrations, probes };
        Ok(&self.registrations[index])
    }

    /// Starts every enabled feature that currently has an available capability.
    pub fn start_enabled(&mut self)
        ensures
            consistent_registrations(final(self).registration_seq()),
            final(self).probe_seq() == old(self).probe_seq(),
            final(self).registration_seq() == old(self).registration_seq().map_values(
                |registration: ServiceRegistration| started(registration),
            ),
    {
        let (registrations, probes) = self.take_parts();
        let ghost before = registrations@;
        let mut remaining = registrations;
        let mut updated: Vec<ServiceRegistration> = Vec::new();
        let mut index: usize = 0;
        let length = remaining.len();
        while index < length
            invariant
                length == before.len(),
                index <= length,
                remaining@ == before.subrange(index as int, length as int),
                updated@ == before.subrange(0, index as int).map_values(
                    |registration: ServiceRegistration| started(registration),
                ),
            decreases length - index,
        {
            let mut registration = remaining.remove(0);
            registration.running = registration.enabled && registration.available;
            updated.push(registration);
            proof {
                assert(remaining@ =~= before.subrange(index + 1, length as int));
                assert(updated@ =~= before.subrange(0, index + 1).map_values(
                    |registration: ServiceRegistration| started(registration),
                ));
            }
            index += 1;
        }
        proof {
            assert(before.subrange(0, length as int) =~= before);
            assert forall|i: int, j: int| 0 <= i < j < updated@.len() implies updated@[i].feature.id@
                != updated@[j].feature.id@ by {
                assert(updated@[i].feature == before[i].feature);
                assert(updated@[j].feature == before[j].feature);
            }
            assert forall|i: int| 0 <= i < updated@.len() implies consistent_registration(
                #[trigger] updated@[i],
            ) by {
                assert(consistent_registration(before[i]));
            }
        }
        *self = FeatureRegistry { registrations: updated, probes };
    }

    fn find(&self, feature_id: &str) -> (found: Option<usize>)
        ensures
            found matches Some(index) ==> index < self.registrations@.len()
                && self.registrations@[index as int].feature.id@ == feature_id@,
            found is None ==> !registered(self.registrations@, feature_id@),
    {
        let mut index: usize = 0;
        while index < self.registrations.len()
            invariant
                index <= self.registrations@.len(),
                forall|j: int| 0 <= j < index ==> self.registrations@[j].feature.id@ != feature_id@,
            decreases self.registrations@.len() - index,
        {
            if str_equal(self.registrations[index].feature.id, feature_id) {
                return Some(index);
            }
            index += 1;
        }
        None
    }
}

impl<P> Default for FeatureRegistry<P> {
    fn default() -> (registry: Self)
        ensures
            registry.registration_seq().len() == 0,
            registry.probe_seq().len() == 0,
    {
        FeatureRegistry::new()
    }
}

impl<P: CapabilityProbe> FeatureRegistry<P> {
    /// Registers a feature, caches its initial probe result, and does not start it.
    pub fn register_probe(&mut self, feature: FeatureSpec, enabled: bool, probe: P) -> (result:
        Result<(), RegistryError>)
        ensures
            consistent_registrations(final(self).registration_seq()),
            registered(old(self).registration_seq(), feature.id@) ==> result == Err::<(), RegistryError>(
                RegistryError::DuplicateFeature { feature_id: feature.id },
            ),
            result is Err ==> final(self).registration_seq() == old(self).registration_seq()
                && final(self).probe_seq() == old(self).probe_seq(),
            !registered(old(self).registration_seq(), feature.id@) && result is Err ==> (result->Err_0
                matches RegistryError::FeatureIdMismatch { feature_id, report_feature_id } && feature_id
                == feature.id && report_feature_id@ != feature.id@),
            result is Ok ==> !registered(old(self).registration_seq(), feature.id@)
                && final(self).registration_seq().len() == old(self).registration_seq().len() + 1
                && final(self).registration_seq().drop_last() == old(self).registration_seq()
                && final(self).registration_seq().last().feature == feature
                && final(self).registration_seq().last().enabled == enabled
                && !final(self).registration_seq().last().running
                && final(self).registration_seq().last().capability.feature_id@ == feature.id@
                && final(self).probe_seq() == old(self).probe_seq().push(probe),
            registration_step(old(self).registration_seq(), final(self).registration_seq(), feature, enabled, result is Ok),
    {
        proof {
            use_type_invariant(&*self);
        }
        match self.find(feature.id) {
            Some(_) => {
                return Err(RegistryError::DuplicateFeature { feature_id: feature.id });
            },
            None => {},
        }
        let report = probe.probe();
        self.register_report(feature, enabled, report, probe)
    }

    /// Refreshes a cached report through the feature's own read-only probe.
    pub fn refresh_capability(&mut self, feature_id: &str) -> (result: Result<
        &ServiceRegistration,
        RegistryError,
    >)
        ensures
            consistent_registrations(final(self).registration_seq()),
            final(self).probe_seq() == old(self).probe_seq(),
            !registered(old(self).registration_seq(), feature_id@) ==> result is Err
                && result->Err_0@ == RegistryErrorModel::UnknownFeature(feature_id@),
            result is Err ==> final(self).registration_seq() == old(self).registration_seq(),
            registered(old(self).registration_seq(), feature_id@) && result is Err ==> (result->Err_0
                matches RegistryError::FeatureIdMismatch { feature_id: id, report_feature_id } && id@
                == feature_id@ && report_feature_id@ != feature_id@),
            result matches Ok(registration) ==> registered(old(self).registration_seq(), feature_id@)
                && *registration == final(self).registration_seq()[position_of(
                old(self).registration_seq(),
                feature_id@,
            )] && exists|report: CapabilityReport|
                report.feature_id@ == feature_id@ && final(self).registration_seq() == old(
                    self,
                ).registration_seq().update(
                    position_of(old(self).registration_seq(), feature_id@),
                    #[trigger] refreshed(
                        old(self).registration_seq()[position_of(
                            old(self).registration_seq(),
                            feature_id@,
                        )],
                        report,
                    ),
                ),
    {
        proof {
            use_type_invariant(&*self);
        }
        let index = match self.find(feature_id) {
            Some(index) => index,
            None => {
                return Err(RegistryError::UnknownFeature { feature_id: owned(feature_id) });
            },
        };
        let report = self.probes[index].probe();
        let ghost probed = report;
        let result = self.apply_report(feature_id, report);
        proof {
            if result is Ok {
                assert(probed.feature_id@ == feature_id@);
            }
        }
        result
    }
}

} // verus!
