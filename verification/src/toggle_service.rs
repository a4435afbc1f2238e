//! Independent quick-toggle state, confirmation, and ownership policy.

use vstd::prelude::*;

use crate::quick_toggles::{
    ALL_QUICK_TOGGLES, QuickToggleControl, QUICK_TOGGLE_COUNT, QuickToggleBackend, QuickToggleError, QuickToggleId,
    QuickToggleMutation, QuickToggleObservation, kestrel_owned, toggle_at, toggle_index,
    toggle_label, toggle_requirement,
};

verus! {

/// Who last decided a toggle's observed state.
#[derive(Debug, Clone, Copy, PartialEq, Eq, Structural)]
pub enum ToggleStateSource {
    KestrelOwned,
    ProviderObserved,
    ChangedElsewhere,
}

/// The latest known state of one toggle.
#[derive(Debug, Clone)]
pub struct QuickToggleSnapshot {
    pub id: QuickToggleId,
    pub label: &'static str,
    pub requirement: &'static str,
    pub observation: Option<QuickToggleObservation>,
    pub source: ToggleStateSource,
    pub error: Option<QuickToggleError>,
}

/// A user's request to change one toggle.
#[derive(Debug, Clone)]
pub struct QuickToggleCommand {
    pub id: QuickToggleId,
    pub mutation: QuickToggleMutation,
    pub confirmation_token: Option<String>,
}

/// The source a toggle starts from: Kestrel's own toggles are Kestrel-owned,
/// the others follow their provider.
pub open spec fn initial_source(id: QuickToggleId) -> ToggleStateSource {
    if kestrel_owned(id) {
        ToggleStateSource::KestrelOwned
    } else {
        ToggleStateSource::ProviderObserved
    }
}

/// The snapshot a toggle starts from.
pub open spec fn initial_snapshot(id: QuickToggleId) -> QuickToggleSnapshot {
    QuickToggleSnapshot {
        id,
        label: toggle_label(id),
        requirement: toggle_requirement(id),
        observation: None,
        source: initial_source(id),
        error: None,
    }
}

/// The source after a fresh observation: Kestrel's own toggles stay
/// Kestrel-owned; a first observation is the provider's; an unchanged control
/// keeps its source; any other change was made elsewhere.
pub open spec fn observed_source(previous: QuickToggleSnapshot, observation: QuickToggleObservation) -> ToggleStateSource {
    if kestrel_owned(previous.id) {
        ToggleStateSource::KestrelOwned
    } else {
        match previous.observation {
            None => ToggleStateSource::ProviderObserved,
            Some(prior) => if prior.control@ == observation.control@ {
                previous.source
            } else {
                ToggleStateSource::ChangedElsewhere
            },
        }
    }
}

/// A snapshot after a refresh: a fresh observation replaces the old one and
/// clears the error; a failure is recorded beside the last known state.
pub open spec fn after_observation(
    previous: QuickToggleSnapshot,
    result: Result<QuickToggleObservation, QuickToggleError>,
) -> QuickToggleSnapshot {
    match result {
        Ok(observation) => QuickToggleSnapshot {
            observation: Some(observation),
            source: observed_source(previous, observation),
            error: None,
            ..previous
        },
        Err(error) => QuickToggleSnapshot { error: Some(error), ..previous },
    }
}

/// Whether `next` is `previous` after one refresh, whatever the backend
/// answered: the toggle and its texts stay; either a fresh observation was
/// recorded with its source and no error, or a failure was recorded beside
/// the last known state.
pub open spec fn refreshed_from(previous: QuickToggleSnapshot, next: QuickToggleSnapshot) -> bool {
    &&& next.id == previous.id
    &&& next.label == previous.label
    &&& next.requirement == previous.requirement
    &&& match next.error {
        Some(_) => next.observation == previous.observation && next.source == previous.source,
        None => next.observation matches Some(observation) && next.source == observed_source(previous, observation),
    }
}

/// A refresh, whatever its outcome, gives a refreshed snapshot.
pub proof fn lemma_after_observation_refreshes(
    previous: QuickToggleSnapshot,
    result: Result<QuickToggleObservation, QuickToggleError>,
)
    ensures
        refreshed_from(previous, after_observation(previous, result)),
{
}

/// A snapshot after Kestrel itself changed the toggle.
pub open spec fn after_mutation(previous: QuickToggleSnapshot, observation: QuickToggleObservation) -> QuickToggleSnapshot {
    QuickToggleSnapshot {
        observation: Some(observation),
        source: ToggleStateSource::KestrelOwned,
        error: None,
        ..previous
    }
}

/// A consistent snapshot: its fixed texts match its toggle, Kestrel's own
/// toggles are Kestrel-owned, and a change made elsewhere was observed.
pub open spec fn consistent_snapshot(snapshot: QuickToggleSnapshot) -> bool {
    &&& snapshot.label == toggle_label(snapshot.id)
    &&& snapshot.requirement == toggle_requirement(snapshot.id)
    &&& kestrel_owned(snapshot.id) ==> snapshot.source == ToggleStateSource::KestrelOwned
    &&& snapshot.source == ToggleStateSource::ChangedElsewhere ==> snapshot.observation is Some
}

/// One consistent snapshot per toggle, in presentation order.
pub open spec fn consistent_snapshots(snapshots: Seq<QuickToggleSnapshot>) -> bool {
    &&& snapshots.len() == QUICK_TOGGLE_COUNT
    &&& forall|i: int|
        0 <= i < snapshots.len() ==> (#[trigger] snapshots[i]).id == toggle_at(i) && consistent_snapshot(
            snapshots[i],
        )
}

/// Once a provider change is seen, later observations keep reporting it as
/// made elsewhere, whatever the control returns to.
pub proof fn lemma_changed_elsewhere_persists(
    previous: QuickToggleSnapshot,
    observation: QuickToggleObservation,
)
    requires
        consistent_snapshot(previous),
        previous.source == ToggleStateSource::ChangedElsewhere,
    ensures
        after_observation(previous, Ok(observation)).source == ToggleStateSource::ChangedElsewhere,
        consistent_snapshot(after_observation(previous, Ok(observation))),
{
}

/// A control that differs from the last one Kestrel set is reported as
/// changed elsewhere.
pub proof fn lemma_provider_change_detected(
    previous: QuickToggleSnapshot,
    observation: QuickToggleObservation,
)
    requires
        consistent_snapshot(previous),
        !kestrel_owned(previous.id),
        previous.observation matches Some(prior) && prior.control@ != observation.control@,
    ensures
        after_observation(previous, Ok(observation)).source == ToggleStateSource::ChangedElsewhere,
{
}

/// Every refresh and mutation keeps a snapshot consistent.
pub proof fn lemma_updates_keep_consistency(
    previous: QuickToggleSnapshot,
    result: Result<QuickToggleObservation, QuickToggleError>,
    observation: QuickToggleObservation,
)
    requires
        consistent_snapshot(previous),
    ensures
        consistent_snapshot(after_observation(previous, result)),
        consistent_snapshot(after_mutation(previous, observation)),
{
}

/// The toggle service: a backend and one snapshot per built-in toggle.
pub struct QuickToggleService<B: QuickToggleBackend> {
    pub backend: B,
    snapshots: Vec<QuickToggleSnapshot>,
}

fn initial_for(id: QuickToggleId) -> (snapshot: QuickToggleSnapshot)
    ensures
        snapshot == initial_snapshot(id),
{
    let source = if matches!(id, QuickToggleId::KeepAwake | QuickToggleId::BatteryAlerts) {
        ToggleStateSource::KestrelOwned
    } else {
        ToggleStateSource::ProviderObserved
    };
    QuickToggleSnapshot {
        id,
        label: id.label(),
        requirement: id.requirement(),
        observation: None,
        source,
        error: None,
    }
}

/// Whether the first snapshot of a toggle shows it switched on.
pub open spec fn switched_on(snapshots: Seq<QuickToggleSnapshot>, id: QuickToggleId) -> bool
    decreases snapshots.len(),
{
    if snapshots.len() == 0 {
        false
    } else if snapshots[0].id == id {
        match snapshots[0].observation {
            Some(observation) => match observation.control {
                QuickToggleControl::Switch { enabled, .. } => enabled,
                _ => false,
            },
            None => false,
        }
    } else {
        switched_on(snapshots.drop_first(), id)
    }
}

/// Whether the battery alert rule is enforced: the battery-alerts toggle
/// can only narrow the user's configured preference, never turn on a rule
/// the user turned off.
pub fn battery_alert_rule_enabled(configured: bool, snapshots: &[QuickToggleSnapshot]) -> (enabled: bool)
    ensures
        enabled == (configured && switched_on(snapshots@, QuickToggleId::BatteryAlerts)),
        !configured ==> !enabled,
{
    let mut index: usize = 0;
    assert(snapshots@.subrange(0, snapshots@.len() as int) =~= snapshots@);
    while index < snapshots.len()
        invariant
            index <= snapshots@.len(),
            switched_on(snapshots@, QuickToggleId::BatteryAlerts) == switched_on(
                snapshots@.subrange(index as int, snapshots@.len() as int),
                QuickToggleId::BatteryAlerts,
            ),
        decreases snapshots@.len() - index,
    {
        let ghost rest = snapshots@.subrange(index as int, snapshots@.len() as int);
        assert(rest[0] == snapshots@[index as int]);
        if snapshots[index].id == QuickToggleId::BatteryAlerts {
            let on = match &snapshots[index].observation {
                Some(observation) => match &observation.control {
                    QuickToggleControl::Switch { enabled, .. } => *enabled,
                    _ => false,
                },
                None => false,
            };
            return configured && on;
        }
        assert(rest.drop_first() =~= snapshots@.subrange(index + 1, snapshots@.len() as int));
        index += 1;
    }
    false
}

impl<B: QuickToggleBackend> QuickToggleService<B> {
    /// The snapshots, one per toggle in presentation order.
    pub closed spec fn snapshot_seq(&self) -> Seq<QuickToggleSnapshot> {
        self.snapshots@
    }

    /// The backend the service drives.
    pub closed spec fn backend_state(&self) -> B {
        self.backend
    }

    /// The service holds one consistent snapshot per toggle.
    pub open spec fn wf(&self) -> bool {
        consistent_snapshots(self.snapshot_seq())
    }

    /// The current snapshot of `id`.
    pub open spec fn snapshot_of(&self, id: QuickToggleId) -> QuickToggleSnapshot {
        self.snapshot_seq()[toggle_index(id)]
    }

    /// A service over `backend` with every toggle unobserved.
    pub fn new(backend: B) -> (service: Self)
        ensures
            service.wf(),
            service.backend_state() == backend,
            forall|i: int| 0 <= i < QUICK_TOGGLE_COUNT ==> #[trigger] service.snapshot_seq()[i] == initial_snapshot(toggle_at(i)),
    {
        let mut snapshots: Vec<QuickToggleSnapshot> = Vec::new();
        let mut index: usize = 0;
        while index < QUICK_TOGGLE_COUNT
            invariant
                index <= QUICK_TOGGLE_COUNT,
                snapshots@.len() == index,
                forall|i: int| 0 <= i < index ==> #[trigger] snapshots@[i] == initial_snapshot(toggle_at(i)),
            decreases QUICK_TOGGLE_COUNT - index,
        {
            let id = ALL_QUICK_TOGGLES[index];
            assert(id == toggle_at(index as int));
            snapshots.push(initial_for(id));
            index += 1;
        }
        QuickToggleService { backend, snapshots }
    }

    /// Records the outcome of observing `id`.
    pub fn record_observation(
        &mut self,
        id: QuickToggleId,
        result: Result<QuickToggleObservation, QuickToggleError>,
    ) -> (snapshot: &QuickToggleSnapshot)
        requires
            old(self).wf(),
        ensures
            final(self).wf(),
            final(self).backend_state() == old(self).backend_state(),
            final(self).snapshot_seq() == old(self).snapshot_seq().update(
                toggle_index(id),
                after_observation(old(self).snapshot_of(id), result),
            ),
            *snapshot == final(self).snapshot_of(id),
    {
        let index = id.index();
        let ghost before = self.snapshots@;
        assert(before[index as int].id == id);
        let mut snapshot = self.snapshots.remove(index);
        match result {
            Ok(observation) => {
                let source = if matches!(id, QuickToggleId::KeepAwake | QuickToggleId::BatteryAlerts) {
                    ToggleStateSource::KestrelOwned
                } else {
                    match &snapshot.observation {
                        None => ToggleStateSource::ProviderObserved,
                        Some(previous) => if previous.control.same_as(&observation.control) {
                            snapshot.source
                        } else {
                            ToggleStateSource::ChangedElsewhere
                        },
                    }
                };
                snapshot.observation = Some(observation);
                snapshot.source = source;
                snapshot.error = None;
            },
            Err(error) => {
                snapshot.error = Some(error);
            },
        }
        self.snapshots.insert(index, snapshot);
        proof {
            assert(self.snapshots@ =~= before.update(index as int, after_observation(before[index as int], result)));
            assert forall|i: int| 0 <= i < self.snapshots@.len() implies (#[trigger] self.snapshots@[i]).id
                == toggle_at(i) && consistent_snapshot(self.snapshots@[i]) by {
                if i != index {
                    assert(self.snapshots@[i] == before[i]);
                }
            }
        }
        &self.snapshots[index]
    }

    /// Records the outcome of a mutation of `id` that Kestrel requested.
    pub fn record_mutation(
        &mut self,
        id: QuickToggleId,
        result: Result<QuickToggleObservation, QuickToggleError>,
    ) -> (outcome: Result<&QuickToggleSnapshot, QuickToggleError>)
        requires
            old(self).wf(),
        ensures
            final(self).wf(),
            final(self).backend_state() == old(self).backend_state(),
            match result {
                Ok(observation) => {
                    &&& final(self).snapshot_seq() == old(self).snapshot_seq().update(
                        toggle_index(id),
                        after_mutation(old(self).snapshot_of(id), observation),
                    )
                    &&& outcome matches Ok(snapshot) && *snapshot == final(self).snapshot_of(id)
                },
                Err(error) => {
                    &&& final(self).snapshot_seq() == old(self).snapshot_seq().update(
                        toggle_index(id),
                        QuickToggleSnapshot { error: final(self).snapshot_of(id).error, ..old(self).snapshot_of(id) },
                    )
                    &&& final(self).snapshot_of(id).error matches Some(recorded) && recorded@ == error@
                    &&& outcome == Err::<&QuickToggleSnapshot, QuickToggleError>(error)
                },
            },
    {
        let index = id.index();
        let ghost before = self.snapshots@;
        assert(before[index as int].id == id);
        let mut snapshot = self.snapshots.remove(index);
        match result {
            Ok(observation) => {
                snapshot.observation = Some(observation);
                snapshot.source = ToggleStateSource::KestrelOwned;
                snapshot.error = None;
                self.snapshots.insert(index, snapshot);
                proof {
                    assert(self.snapshots@ =~= before.update(index as int, after_mutation(before[index as int], observation)));
                    assert forall|i: int| 0 <= i < self.snapshots@.len() implies (#[trigger] self.snapshots@[i]).id
                        == toggle_at(i) && consistent_snapshot(self.snapshots@[i]) by {
                        if i != index {
                            assert(self.snapshots@[i] == before[i]);
                        }
                    }
                }
                Ok(&self.snapshots[index])
            },
            Err(error) => {
                snapshot.error = Some(error.duplicate());
                self.snapshots.insert(index, snapshot);
                proof {
                    assert(self.snapshots@ =~= before.update(index as int, QuickToggleSnapshot { error: self.snapshots@[index as int].error, ..before[index as int] }));
                    assert forall|i: int| 0 <= i < self.snapshots@.len() implies (#[trigger] self.snapshots@[i]).id
                        == toggle_at(i) && consistent_snapshot(self.snapshots@[i]) by {
                        if i != index {
                            assert(self.snapshots@[i] == before[i]);
                        }
                    }
                }
                Err(error)
            },
        }
    }

    /// Every snapshot, in presentation order.
    pub fn snapshots(&self) -> (iterator: std::slice::Iter<'_, QuickToggleSnapshot>)
        ensures
            vstd::std_specs::slice::into_iter_elts(iterator) == self.snapshot_seq(),
    {
        self.snapshots.iter()
    }

    /// Every snapshot, in presentation order, as a slice.
    pub fn snapshot_list(&self) -> (list: &[QuickToggleSnapshot])
        ensures
            list@ == self.snapshot_seq(),
    {
        self.snapshots.as_slice()
    }

    /// Records or clears a failure reported outside a refresh.
    pub fn set_runtime_error(&mut self, id: QuickToggleId, error: Option<QuickToggleError>)
        requires
            old(self).wf(),
        ensures
            final(self).wf(),
            final(self).backend_state() == old(self).backend_state(),
            final(self).snapshot_seq() == old(self).snapshot_seq().update(
                toggle_index(id),
                QuickToggleSnapshot { error, ..old(self).snapshot_of(id) },
            ),
    {
        let index = id.index();
        let ghost before = self.snapshots@;
        assert(before[index as int].id == id);
        let mut snapshot = self.snapshots.remove(index);
        snapshot.error = error;
        self.snapshots.insert(index, snapshot);
        proof {
            assert(self.snapshots@ =~= before.update(index as int, QuickToggleSnapshot { error, ..before[index as int] }));
            assert forall|i: int| 0 <= i < self.snapshots@.len() implies (#[trigger] self.snapshots@[i]).id
                == toggle_at(i) && consistent_snapshot(self.snapshots@[i]) by {
                if i != index {
                    assert(self.snapshots@[i] == before[i]);
                }
            }
        }
    }
}

impl<B: QuickToggleBackend> QuickToggleService<B> {
    /// Observes `id` through the backend and records the outcome.
    pub fn refresh(&mut self, id: QuickToggleId) -> (snapshot: &QuickToggleSnapshot)
        requires
            old(self).wf(),
        ensures
            final(self).wf(),
            final(self).backend_state() == old(self).backend_state(),
            exists|result: Result<QuickToggleObservation, QuickToggleError>|
                final(self).snapshot_seq() == old(self).snapshot_seq().update(
                    toggle_index(id),
                    #[trigger] after_observation(old(self).snapshot_of(id), result),
                ),
            *snapshot == final(self).snapshot_of(id),
            final(self).snapshot_seq() == old(self).snapshot_seq().update(toggle_index(id), final(self).snapshot_of(id)),
            refreshed_from(old(self).snapshot_of(id), final(self).snapshot_of(id)),
    {
        let result = self.backend.observe(id);
        proof {
            lemma_after_observation_refreshes(self.snapshot_of(id), result);
        }
        self.record_observation(id, result)
    }

    /// Refreshes every toggle in presentation order.
    pub fn refresh_all(&mut self)
        requires
            old(self).wf(),
        ensures
            final(self).wf(),
            final(self).backend_state() == old(self).backend_state(),
            forall|i: int| 0 <= i < QUICK_TOGGLE_COUNT ==> refreshed_from(
                old(self).snapshot_seq()[i],
                #[trigger] final(self).snapshot_seq()[i],
            ),
    {
        let ghost start = self.snapshot_seq();
        let mut index: usize = 0;
        while index < QUICK_TOGGLE_COUNT
            invariant
                self.wf(),
                index <= QUICK_TOGGLE_COUNT,
                start == old(self).snapshot_seq(),
                self.backend_state() == old(self).backend_state(),
                forall|i: int| 0 <= i < index ==> refreshed_from(start[i], #[trigger] self.snapshot_seq()[i]),
                forall|i: int| index <= i < QUICK_TOGGLE_COUNT ==> #[trigger] self.snapshot_seq()[i] == start[i],
            decreases QUICK_TOGGLE_COUNT - index,
        {
            let id = ALL_QUICK_TOGGLES[index];
            assert(id == toggle_at(index as int));
            assert(toggle_index(id) == index);
            self.refresh(id);
            index += 1;
        }
    }

    /// Asks the backend to apply a command and records the outcome.
    pub fn execute(&mut self, command: QuickToggleCommand) -> (outcome: Result<
        &QuickToggleSnapshot,
        QuickToggleError,
    >)
        requires
            old(self).wf(),
        ensures
            final(self).wf(),
            outcome matches Ok(snapshot) ==> exists|observation: QuickToggleObservation|
                final(self).snapshot_seq() == old(self).snapshot_seq().update(
                    toggle_index(command.id),
                    #[trigger] after_mutation(old(self).snapshot_of(command.id), observation),
                ) && *snapshot == final(self).snapshot_of(command.id),
            outcome matches Err(error) ==> final(self).snapshot_seq() == old(self).snapshot_seq().update(
                toggle_index(command.id),
                QuickToggleSnapshot {
                    error: final(self).snapshot_of(command.id).error,
                    ..old(self).snapshot_of(command.id)
                },
            ) && (final(self).snapshot_of(command.id).error matches Some(recorded) && recorded@ == error@),
    {
        let QuickToggleCommand { id, mutation, confirmation_token } = command;
        let token: Option<&str> = match &confirmation_token {
            Some(token) => Some(token.as_str()),
            None => None,
        };
        let result = self.backend.apply(id, mutation, token);
        self.record_mutation(id, result)
    }

    /// Releases Kestrel-owned toggles and records their state.
    pub fn stop(&mut self)
        requires
            old(self).wf(),
        ensures
            final(self).wf(),
            forall|i: int|
                0 <= i < QUICK_TOGGLE_COUNT && i != toggle_index(QuickToggleId::KeepAwake) && i
                    != toggle_index(QuickToggleId::BatteryAlerts) ==> #[trigger] final(self).snapshot_seq()[i]
                    == old(self).snapshot_seq()[i],
            refreshed_from(old(self).snapshot_of(QuickToggleId::KeepAwake), final(self).snapshot_of(QuickToggleId::KeepAwake)),
            refreshed_from(
                old(self).snapshot_of(QuickToggleId::BatteryAlerts),
                final(self).snapshot_of(QuickToggleId::BatteryAlerts),
            ),
    {
        let _ = self.backend.apply(QuickToggleId::KeepAwake, QuickToggleMutation::SetEnabled(false), None);
        let _ = self.backend.apply(
            QuickToggleId::BatteryAlerts,
            QuickToggleMutation::SetEnabled(false),
            None,
        );
        self.refresh(QuickToggleId::KeepAwake);
        self.refresh(QuickToggleId::BatteryAlerts);
    }
}

} // verus!
