//! Policy-driven, sustained system alerts with bounded in-memory state.
//!
//! The engine is generic over the measured value: it never inspects a
//! value, it only carries it into the alerts and events it reports. Whether
//! a value crosses its threshold, or has recovered past the hysteresis
//! margin, is decided by the caller for each observation.

use vstd::prelude::*;

use crate::text::owned;

verus! {

/// What a system alert watches.
#[derive(Debug, Clone, Copy, PartialEq, Eq, Structural)]
pub enum AlertKind {
    Cpu,
    Temperature,
    Memory,
    Disk,
    Battery,
}

/// Every alert kind, in evaluation order.
pub const ALERT_KINDS: [AlertKind; 5] = [
    AlertKind::Cpu,
    AlertKind::Temperature,
    AlertKind::Memory,
    AlertKind::Disk,
    AlertKind::Battery,
];

/// The number of alert kinds.
pub const ALERT_KIND_COUNT: usize = 5;

/// The position of a kind in evaluation order.
pub open spec fn kind_position(kind: AlertKind) -> int {
    match kind {
        AlertKind::Cpu => 0,
        AlertKind::Temperature => 1,
        AlertKind::Memory => 2,
        AlertKind::Disk => 3,
        AlertKind::Battery => 4,
    }
}

/// The kind at a position in evaluation order.
pub open spec fn kind_at(index: int) -> AlertKind {
    if index == 0 {
        AlertKind::Cpu
    } else if index == 1 {
        AlertKind::Temperature
    } else if index == 2 {
        AlertKind::Memory
    } else if index == 3 {
        AlertKind::Disk
    } else {
        AlertKind::Battery
    }
}

/// Whether a kind alerts on high values; the battery alerts on low charge.
pub open spec fn alerts_on_high(kind: AlertKind) -> bool {
    kind != AlertKind::Battery
}

/// The name an alert kind is shown by.
pub open spec fn alert_kind_label(kind: AlertKind) -> &'static str {
    match kind {
        AlertKind::Cpu => "CPU",
        AlertKind::Temperature => "Temperature",
        AlertKind::Memory => "Memory",
        AlertKind::Disk => "Disk",
        AlertKind::Battery => "Battery",
    }
}

/// The unit of an alert kind's threshold: degrees Celsius for temperatures,
/// a percentage otherwise.
pub open spec fn alert_kind_unit(kind: AlertKind) -> &'static str {
    if kind == AlertKind::Temperature { "°C" } else { "%" }
}

impl AlertKind {
    /// The name this kind is shown by.
    pub fn label(self) -> (label: &'static str)
        ensures
            label == alert_kind_label(self),
    {
        match self {
            AlertKind::Cpu => "CPU",
            AlertKind::Temperature => "Temperature",
            AlertKind::Memory => "Memory",
            AlertKind::Disk => "Disk",
            AlertKind::Battery => "Battery",
        }
    }

    /// The unit of this kind's threshold.
    pub fn unit(self) -> (unit: &'static str)
        ensures
            unit == alert_kind_unit(self),
    {
        if matches!(self, AlertKind::Temperature) { "°C" } else { "%" }
    }

    /// Whether this kind alerts on high values.
    pub fn alerts_above(self) -> (above: bool)
        ensures
            above == alerts_on_high(self),
    {
        !matches!(self, AlertKind::Battery)
    }

    /// The position of this kind in evaluation order.
    pub fn index(self) -> (index: usize)
        ensures
            index == kind_position(self),
            index < ALERT_KIND_COUNT,
    {
        match self {
            AlertKind::Cpu => 0,
            AlertKind::Temperature => 1,
            AlertKind::Memory => 2,
            AlertKind::Disk => 3,
            AlertKind::Battery => 4,
        }
    }
}

/// One kind's rule: a threshold that must be crossed for a number of
/// consecutive samples, and a cooldown between repeated alerts.
#[derive(Debug, Clone, Copy)]
pub struct AlertRule<V> {
    pub kind: AlertKind,
    pub enabled: bool,
    pub threshold: V,
    pub sustain_samples: u32,
    pub cooldown_millis: u64,
}

/// One rule per kind, in evaluation order.
pub struct AlertPolicy<V> {
    rules: Vec<AlertRule<V>>,
}

/// One rule per kind, in evaluation order.
pub open spec fn rules_in_order<V>(rules: Seq<AlertRule<V>>) -> bool {
    rules.len() == ALERT_KIND_COUNT && forall|i: int| 0 <= i < ALERT_KIND_COUNT ==> (#[trigger] rules[i]).kind == kind_at(i)
}

impl<V: Copy> AlertPolicy<V> {
    /// The rules, in evaluation order.
    pub closed spec fn rule_seq(&self) -> Seq<AlertRule<V>> {
        self.rules@
    }

    /// One rule per kind, in evaluation order.
    pub open spec fn wf(&self) -> bool {
        rules_in_order(self.rule_seq())
    }

    /// A policy from one rule per kind, given in evaluation order; rules in
    /// another order are refused.
    pub fn from_rules(rules: Vec<AlertRule<V>>) -> (policy: Option<Self>)
        ensures
            rules_in_order(rules@) <==> policy is Some,
            policy matches Some(found) ==> found.rule_seq() == rules@,
    {
        if rules.len() != ALERT_KIND_COUNT {
            return None;
        }
        let mut index: usize = 0;
        while index < ALERT_KIND_COUNT
            invariant
                rules@.len() == ALERT_KIND_COUNT,
                index <= ALERT_KIND_COUNT,
                forall|i: int| 0 <= i < index ==> (#[trigger] rules@[i]).kind == kind_at(i),
            decreases ALERT_KIND_COUNT - index,
        {
            let expected = ALERT_KINDS[index];
            assert(expected == kind_at(index as int));
            if rules[index].kind != expected {
                return None;
            }
            index += 1;
        }
        Some(AlertPolicy { rules })
    }

    /// The rules, in evaluation order.
    pub fn rules(&self) -> (rules: &[AlertRule<V>])
        ensures
            rules@ == self.rule_seq(),
    {
        self.rules.as_slice()
    }

    /// The rule for `kind`.
    pub fn rule(&self, kind: AlertKind) -> (rule: &AlertRule<V>)
        requires
            self.wf(),
        ensures
            *rule == self.rule_seq()[kind_position(kind)],
    {
        &self.rules[kind.index()]
    }

    /// Enables or disables the rule for `kind`.
    pub fn set_enabled(&mut self, kind: AlertKind, enabled: bool)
        requires
            old(self).wf(),
        ensures
            final(self).wf(),
            final(self).rule_seq() == old(self).rule_seq().update(
                kind_position(kind),
                AlertRule { enabled, ..old(self).rule_seq()[kind_position(kind)] },
            ),
    {
        let index = kind.index();
        let mut rule = self.rules[index];
        rule.enabled = enabled;
        self.rules.set(index, rule);
    }
}

/// One kind's observation in a sample: the measured value, what it is
/// about, whether it crosses the threshold, and whether it has recovered
/// past the hysteresis margin.
#[derive(Debug, Clone)]
pub struct AlertObservation<V> {
    pub value: V,
    pub subject: Option<String>,
    pub crossing: bool,
    pub recovered: bool,
}

/// A raised alert.
#[derive(Debug, Clone)]
pub struct ActiveAlert<V> {
    pub kind: AlertKind,
    pub value: V,
    pub threshold: V,
    pub subject: Option<String>,
    pub raised_at_millis: u64,
}

/// A change in an alert.
#[derive(Debug, Clone)]
pub enum AlertEvent<V> {
    Raised { kind: AlertKind, value: V, threshold: V, subject: Option<String>, observed_at_millis: u64 },
    Cleared { kind: AlertKind, observed_at_millis: u64 },
}

impl<V> AlertEvent<V> {
    /// The kind of alert that changed.
    pub fn kind(&self) -> (kind: AlertKind)
        ensures
            kind == match *self {
                AlertEvent::Raised { kind, .. } => kind,
                AlertEvent::Cleared { kind, .. } => kind,
            },
    {
        match self {
            AlertEvent::Raised { kind, .. } => *kind,
            AlertEvent::Cleared { kind, .. } => *kind,
        }
    }

    /// Whether the alert was raised.
    pub fn is_raised(&self) -> (raised: bool)
        ensures
            raised == (*self is Raised),
    {
        matches!(self, AlertEvent::Raised { .. })
    }
}

/// A notification for `kind` that could not be delivered.
#[derive(Debug, Clone, PartialEq, Eq)]
pub struct AlertDeliveryFailure {
    pub kind: AlertKind,
    pub message: String,
}

/// The raised alerts and the delivery failures, in kind order.
#[derive(Debug, Clone)]
pub struct AlertSnapshot<V> {
    pub active: Vec<ActiveAlert<V>>,
    pub delivery_failures: Vec<AlertDeliveryFailure>,
}

/// One kind's evaluation state.
#[derive(Debug, Clone)]
pub struct KindState<V> {
    pub sustained: u32,
    pub active: Option<ActiveAlert<V>>,
    pub last_raised_millis: Option<u64>,
}

/// `value + 1`, capped at the largest `u32`.
pub open spec fn bump(value: u32) -> u32 {
    if value < u32::MAX { (value + 1) as u32 } else { u32::MAX }
}

/// Whether a full cooldown has passed since the last raise.
pub open spec fn cooled_down(last: Option<u64>, at: u64, cooldown: u64) -> bool {
    last matches Some(raised) && at >= raised && at - raised >= cooldown
}

/// One kind's state and event after an observation at `at`: a disabled
/// rule or a missing value resets the count; a recovered active alert clears
/// and re-arms; a value that does not cross resets the count; otherwise the
/// count grows, and once it reaches the sustain requirement the alert is
/// raised, unless it is already active and the cooldown has not passed.
pub open spec fn kind_step<V>(
    rule: AlertRule<V>,
    state: KindState<V>,
    observation: Option<AlertObservation<V>>,
    at: u64,
) -> (KindState<V>, Option<AlertEvent<V>>) {
    if !rule.enabled {
        (KindState { sustained: 0, ..state }, None)
    } else {
        match observation {
            None => (KindState { sustained: 0, ..state }, None),
            Some(seen) => if state.active is Some && seen.recovered {
                (
                    KindState { sustained: 0, active: None, last_raised_millis: None },
                    Some(AlertEvent::Cleared { kind: rule.kind, observed_at_millis: at }),
                )
            } else if !seen.crossing {
                (KindState { sustained: 0, ..state }, None)
            } else if bump(state.sustained) < rule.sustain_samples {
                (KindState { sustained: bump(state.sustained), ..state }, None)
            } else if state.active is Some && !cooled_down(state.last_raised_millis, at, rule.cooldown_millis) {
                (KindState { sustained: bump(state.sustained), ..state }, None)
            } else {
                (
                    KindState {
                        sustained: 0,
                        active: Some(ActiveAlert {
                            kind: rule.kind,
                            value: seen.value,
                            threshold: rule.threshold,
                            subject: seen.subject,
                            raised_at_millis: at,
                        }),
                        last_raised_millis: Some(at),
                    },
                    Some(AlertEvent::Raised {
                        kind: rule.kind,
                        value: seen.value,
                        threshold: rule.threshold,
                        subject: seen.subject,
                        observed_at_millis: at,
                    }),
                )
            },
        }
    }
}

/// A disabled rule never raises an alert.
pub proof fn lemma_disabled_rule_is_silent<V>(
    rule: AlertRule<V>,
    state: KindState<V>,
    observation: Option<AlertObservation<V>>,
    at: u64,
)
    requires
        !rule.enabled,
    ensures
        kind_step(rule, state, observation, at).1 is None,
        kind_step(rule, state, observation, at).0.sustained == 0,
{
}

/// A kind whose rule is disabled or whose value is missing neither raises
/// nor clears: its active alert and last raise stay, and its crossing count
/// starts over. Each kind is stepped on its own, so the others are not
/// disturbed.
pub proof fn lemma_unavailable_kind_is_inert<V>(
    rule: AlertRule<V>,
    state: KindState<V>,
    observation: Option<AlertObservation<V>>,
    at: u64,
)
    requires
        !rule.enabled || observation is None,
    ensures
        kind_step(rule, state, observation, at).1 is None,
        kind_step(rule, state, observation, at).0.sustained == 0,
        kind_step(rule, state, observation, at).0.active == state.active,
        kind_step(rule, state, observation, at).0.last_raised_millis == state.last_raised_millis,
{
}

/// An alert is raised only by a crossing observation that completes the
/// sustain requirement; an alert that is already active is raised again only
/// once its cooldown has passed.
pub proof fn lemma_raise_needs_sustain_and_cooldown<V>(
    rule: AlertRule<V>,
    state: KindState<V>,
    observation: Option<AlertObservation<V>>,
    at: u64,
)
    requires
        kind_step(rule, state, observation, at).1 matches Some(AlertEvent::Raised { .. }),
    ensures
        rule.enabled,
        observation matches Some(seen) && seen.crossing,
        bump(state.sustained) >= rule.sustain_samples,
        state.active is Some ==> cooled_down(state.last_raised_millis, at, rule.cooldown_millis),
        kind_step(rule, state, observation, at).0.active is Some,
        kind_step(rule, state, observation, at).0.last_raised_millis == Some(at),
{
}

/// A raised alert records what was observed: the alert that becomes active
/// for the kind, and the event announcing it, carry the observed value and
/// subject, the rule's threshold and the observation time.
pub proof fn lemma_raise_records_observation<V>(
    rule: AlertRule<V>,
    state: KindState<V>,
    observation: Option<AlertObservation<V>>,
    at: u64,
)
    requires
        kind_step(rule, state, observation, at).1 matches Some(AlertEvent::Raised { .. }),
    ensures
        observation matches Some(seen) && {
            &&& kind_step(rule, state, observation, at).0.active == Some(ActiveAlert {
                kind: rule.kind,
                value: seen.value,
                threshold: rule.threshold,
                subject: seen.subject,
                raised_at_millis: at,
            })
            &&& kind_step(rule, state, observation, at).1 == Some(AlertEvent::Raised {
                kind: rule.kind,
                value: seen.value,
                threshold: rule.threshold,
                subject: seen.subject,
                observed_at_millis: at,
            })
        },
{
}

/// Only a raise changes the recorded alert to a new one: otherwise the kind
/// keeps the alert it had, or, on recovery, has none.
pub proof fn lemma_active_alert_changes_only_by_raise_or_clear<V>(
    rule: AlertRule<V>,
    state: KindState<V>,
    observation: Option<AlertObservation<V>>,
    at: u64,
)
    ensures
        kind_step(rule, state, observation, at).1 is None ==> kind_step(rule, state, observation, at).0.active == state.active,
        kind_step(rule, state, observation, at).1 matches Some(AlertEvent::Cleared { .. }) ==> kind_step(
            rule,
            state,
            observation,
            at,
        ).0.active is None && state.active is Some,
{
}

/// A recovered alert clears and re-arms: the next raise needs the full
/// sustain requirement again, with no cooldown pending.
pub proof fn lemma_recovery_rearms<V>(
    rule: AlertRule<V>,
    state: KindState<V>,
    observation: Option<AlertObservation<V>>,
    at: u64,
)
    requires
        rule.enabled,
        state.active is Some,
        observation matches Some(seen) && seen.recovered,
    ensures
        kind_step(rule, state, observation, at).1 matches Some(AlertEvent::Cleared { .. }),
        kind_step(rule, state, observation, at).0.active is None,
        kind_step(rule, state, observation, at).0.sustained == 0,
        kind_step(rule, state, observation, at).0.last_raised_millis is None,
{
}

/// The raised alerts among some kinds' states, in kind order.
pub open spec fn active_list<V>(states: Seq<KindState<V>>) -> Seq<ActiveAlert<V>>
    decreases states.len(),
{
    if states.len() == 0 {
        seq![]
    } else {
        match states.last().active {
            Some(alert) => active_list(states.drop_last()).push(alert),
            None => active_list(states.drop_last()),
        }
    }
}

/// The recorded delivery failures, in kind order.
pub open spec fn failure_list(failures: Seq<Option<AlertDeliveryFailure>>) -> Seq<AlertDeliveryFailure>
    decreases failures.len(),
{
    if failures.len() == 0 {
        seq![]
    } else {
        match failures.last() {
            Some(failure) => failure_list(failures.drop_last()).push(failure),
            None => failure_list(failures.drop_last()),
        }
    }
}

/// The alert engine: a policy, one evaluation state per kind, and the last
/// delivery failure per kind.
pub struct AlertEngine<V> {
    policy: AlertPolicy<V>,
    states: Vec<KindState<V>>,
    failures: Vec<Option<AlertDeliveryFailure>>,
}

/// The initial state of a kind.
pub open spec fn fresh_state<V>(state: KindState<V>) -> bool {
    state.sustained == 0 && state.active is None && state.last_raised_millis is None
}

/// The events of a sample, kind by kind.
pub open spec fn step_events<V>(
    rules: Seq<AlertRule<V>>,
    states: Seq<KindState<V>>,
    observations: Seq<Option<AlertObservation<V>>>,
    at: u64,
    count: nat,
) -> Seq<AlertEvent<V>>
    decreases count,
{
    if count == 0 {
        seq![]
    } else {
        let earlier = step_events(rules, states, observations, at, (count - 1) as nat);
        match kind_step(rules[count - 1], states[count - 1], observations[count - 1], at).1 {
            Some(event) => earlier.push(event),
            None => earlier,
        }
    }
}

/// One kind's state after a run of observations under one rule, the `i`th
/// observed at `times[i]`.
pub open spec fn kind_run<V>(
    rule: AlertRule<V>,
    start: KindState<V>,
    observations: Seq<Option<AlertObservation<V>>>,
    times: Seq<u64>,
) -> KindState<V>
    decreases observations.len(),
{
    if observations.len() == 0 {
        start
    } else {
        kind_step(
            rule,
            kind_run(rule, start, observations.drop_last(), times),
            observations.last(),
            times[observations.len() - 1],
        ).0
    }
}

/// How many of the last observations in a row cross the threshold of an
/// enabled rule.
pub open spec fn crossing_streak<V>(rule: AlertRule<V>, observations: Seq<Option<AlertObservation<V>>>) -> nat
    decreases observations.len(),
{
    if observations.len() > 0 && rule.enabled && (observations.last() matches Some(seen) && seen.crossing) {
        crossing_streak(rule, observations.drop_last()) + 1
    } else {
        0
    }
}

proof fn lemma_sustained_within_streak<V>(
    rule: AlertRule<V>,
    start: KindState<V>,
    observations: Seq<Option<AlertObservation<V>>>,
    times: Seq<u64>,
)
    requires
        fresh_state(start),
    ensures
        kind_run(rule, start, observations, times).sustained <= crossing_streak(rule, observations),
    decreases observations.len(),
{
    if observations.len() > 0 {
        lemma_sustained_within_streak(rule, start, observations.drop_last(), times);
    }
}

/// Across samples, a kind's alert is raised only after as many crossing
/// observations in a row as its rule's sustain requirement, the raising one
/// included, counted since the kind last started over (a disabled rule, a
/// missing value, a value that does not cross, a raise or a clear starts the
/// count over); an alert that is already active is raised again only once
/// its cooldown has passed.
pub proof fn lemma_raise_follows_sustained_crossings<V>(
    rule: AlertRule<V>,
    start: KindState<V>,
    observations: Seq<Option<AlertObservation<V>>>,
    times: Seq<u64>,
    observation: Option<AlertObservation<V>>,
    at: u64,
)
    requires
        fresh_state(start),
        kind_step(rule, kind_run(rule, start, observations, times), observation, at).1 matches Some(AlertEvent::Raised { .. }),
    ensures
        crossing_streak(rule, observations.push(observation)) >= rule.sustain_samples,
        kind_run(rule, start, observations, times).active is Some ==> cooled_down(
            kind_run(rule, start, observations, times).last_raised_millis,
            at,
            rule.cooldown_millis,
        ),
{
    lemma_sustained_within_streak(rule, start, observations, times);
    assert(observations.push(observation).drop_last() =~= observations);
}

/// The kind an event is about.
pub open spec fn event_kind<V>(event: AlertEvent<V>) -> AlertKind {
    match event {
        AlertEvent::Raised { kind, .. } => kind,
        AlertEvent::Cleared { kind, .. } => kind,
    }
}

proof fn lemma_step_events_shape<V>(
    rules: Seq<AlertRule<V>>,
    states: Seq<KindState<V>>,
    observations: Seq<Option<AlertObservation<V>>>,
    at: u64,
    count: nat,
)
    requires
        rules_in_order(rules),
        count <= ALERT_KIND_COUNT,
    ensures
        forall|i: int| 0 <= i < step_events(rules, states, observations, at, count).len() ==> {
            let event = #[trigger] step_events(rules, states, observations, at, count)[i];
            let k = kind_position(event_kind(event));
            &&& 0 <= k < count
            &&& kind_step(rules[k], states[k], observations[k], at).1 == Some(event)
        },
        forall|i: int, j: int| 0 <= i < j < step_events(rules, states, observations, at, count).len() ==> kind_position(
            event_kind(#[trigger] step_events(rules, states, observations, at, count)[i]),
        ) < kind_position(event_kind(#[trigger] step_events(rules, states, observations, at, count)[j])),
        forall|k: int| 0 <= k < count && (#[trigger] kind_step(rules[k], states[k], observations[k], at)).1 is Some ==> exists|i: int|
            0 <= i < step_events(rules, states, observations, at, count).len() && event_kind(
                #[trigger] step_events(rules, states, observations, at, count)[i],
            ) == kind_at(k),
    decreases count,
{
    if count > 0 {
        let n = (count - 1) as nat;
        lemma_step_events_shape(rules, states, observations, at, n);
        let earlier = step_events(rules, states, observations, at, n);
        let all = step_events(rules, states, observations, at, count);
        let step = kind_step(rules[n as int], states[n as int], observations[n as int], at);
        assert(rules[n as int].kind == kind_at(n as int));
        assert(kind_position(kind_at(n as int)) == n);
        match step.1 {
            Some(event) => {
                assert(all == earlier.push(event));
                assert(event_kind(event) == rules[n as int].kind);
                assert forall|i: int| 0 <= i < all.len() implies {
                    let event = #[trigger] all[i];
                    let k = kind_position(event_kind(event));
                    &&& 0 <= k < count
                    &&& kind_step(rules[k], states[k], observations[k], at).1 == Some(event)
                } by {
                    if i < earlier.len() {
                        assert(all[i] == earlier[i]);
                    }
                }
                assert forall|i: int, j: int| 0 <= i < j < all.len() implies kind_position(event_kind(#[trigger] all[i]))
                    < kind_position(event_kind(#[trigger] all[j])) by {
                    assert(all[i] == earlier[i]);
                    if j < earlier.len() {
                        assert(all[j] == earlier[j]);
                    }
                }
                assert forall|k: int| 0 <= k < count && (#[trigger] kind_step(rules[k], states[k], observations[k], at)).1 is Some implies exists|i: int|
                    0 <= i < all.len() && event_kind(#[trigger] all[i]) == kind_at(k) by {
                    if k < n {
                        let i = choose|i: int| 0 <= i < earlier.len() && event_kind(#[trigger] earlier[i]) == kind_at(k);
                        assert(all[i] == earlier[i]);
                    } else {
                        assert(all[earlier.len() as int] == event);
                    }
                }
            },
            None => {
                assert(all == earlier);
            },
        }
    }
}

/// The events of one evaluation come in kind order, at most one per kind:
/// each is the event that kind's own step gives, and every kind whose step
/// gives an event has it in the list.
pub proof fn lemma_events_one_per_kind_in_order<V>(
    rules: Seq<AlertRule<V>>,
    states: Seq<KindState<V>>,
    observations: Seq<Option<AlertObservation<V>>>,
    at: u64,
)
    requires
        rules_in_order(rules),
    ensures
        ({
            let events = step_events(rules, states, observations, at, ALERT_KIND_COUNT as nat);
            &&& forall|i: int| 0 <= i < events.len() ==> kind_step(
                rules[kind_position(event_kind(#[trigger] events[i]))],
                states[kind_position(event_kind(events[i]))],
                observations[kind_position(event_kind(events[i]))],
                at,
            ).1 == Some(events[i])
            &&& forall|i: int, j: int| 0 <= i < j < events.len() ==> kind_position(event_kind(#[trigger] events[i]))
                < kind_position(event_kind(#[trigger] events[j]))
            &&& forall|k: int| 0 <= k < ALERT_KIND_COUNT && (#[trigger] kind_step(rules[k], states[k], observations[k], at)).1 is Some
                ==> exists|i: int| 0 <= i < events.len() && event_kind(#[trigger] events[i]) == kind_at(k)
        }),
{
    lemma_step_events_shape(rules, states, observations, at, ALERT_KIND_COUNT as nat);
}

impl<V: Copy> AlertEngine<V> {
    /// The policy the engine enforces.
    pub closed spec fn policy_spec(&self) -> Seq<AlertRule<V>> {
        self.policy.rule_seq()
    }

    /// Each kind's evaluation state, in kind order.
    pub closed spec fn state_seq(&self) -> Seq<KindState<V>> {
        self.states@
    }

    /// Each kind's last delivery failure, in kind order.
    pub closed spec fn failure_seq(&self) -> Seq<Option<AlertDeliveryFailure>> {
        self.failures@
    }

    /// One rule, one state and one failure slot per kind.
    pub open spec fn wf(&self) -> bool {
        &&& rules_in_order(self.policy_spec())
        &&& self.state_seq().len() == ALERT_KIND_COUNT
        &&& self.failure_seq().len() == ALERT_KIND_COUNT
    }

    /// An engine that has seen nothing yet.
    pub fn new(policy: AlertPolicy<V>) -> (engine: Self)
        requires
            policy.wf(),
        ensures
            engine.wf(),
            engine.policy_spec() == policy.rule_seq(),
            forall|i: int| 0 <= i < ALERT_KIND_COUNT ==> fresh_state(#[trigger] engine.state_seq()[i]),
            forall|i: int| 0 <= i < ALERT_KIND_COUNT ==> (#[trigger] engine.failure_seq()[i]) is None,
    {
        let mut states: Vec<KindState<V>> = Vec::new();
        let mut failures: Vec<Option<AlertDeliveryFailure>> = Vec::new();
        let mut index: usize = 0;
        while index < ALERT_KIND_COUNT
            invariant
                index <= ALERT_KIND_COUNT,
                states@.len() == index,
                failures@.len() == index,
                forall|i: int| 0 <= i < index ==> fresh_state(#[trigger] states@[i]),
                forall|i: int| 0 <= i < index ==> (#[trigger] failures@[i]) is None,
            decreases ALERT_KIND_COUNT - index,
        {
            states.push(KindState { sustained: 0, active: None, last_raised_millis: None });
            failures.push(None);
            index += 1;
        }
        AlertEngine { policy, states, failures }
    }

    /// The policy the engine enforces.
    pub fn policy(&self) -> (policy: &AlertPolicy<V>)
        ensures
            policy.rule_seq() == self.policy_spec(),
    {
        &self.policy
    }

    /// Replaces the policy; evaluation state is kept.
    pub fn set_policy(&mut self, policy: AlertPolicy<V>)
        requires
            old(self).wf(),
            policy.wf(),
        ensures
            final(self).wf(),
            final(self).policy_spec() == policy.rule_seq(),
            final(self).state_seq() == old(self).state_seq(),
            final(self).failure_seq() == old(self).failure_seq(),
    {
        self.policy = policy;
    }

    /// Enables or disables one kind's rule.
    pub fn set_rule_enabled(&mut self, kind: AlertKind, enabled: bool)
        requires
            old(self).wf(),
        ensures
            final(self).wf(),
            final(self).policy_spec() == old(self).policy_spec().update(
                kind_position(kind),
                AlertRule { enabled, ..old(self).policy_spec()[kind_position(kind)] },
            ),
            final(self).state_seq() == old(self).state_seq(),
            final(self).failure_seq() == old(self).failure_seq(),
    {
        self.policy.set_enabled(kind, enabled);
    }

    fn step_one(rule: &AlertRule<V>, state: KindState<V>, observation: Option<AlertObservation<V>>, at: u64) -> (result: (
        KindState<V>,
        Option<AlertEvent<V>>,
    ))
        ensures
            result == kind_step(*rule, state, observation, at),
    {
        if !rule.enabled {
            return (KindState { sustained: 0, ..state }, None);
        }
        match observation {
            None => (KindState { sustained: 0, ..state }, None),
            Some(seen) => {
                if state.active.is_some() && seen.recovered {
                    return (
                        KindState { sustained: 0, active: None, last_raised_millis: None },
                        Some(AlertEvent::Cleared { kind: rule.kind, observed_at_millis: at }),
                    );
                }
                if !seen.crossing {
                    return (KindState { sustained: 0, ..state }, None);
                }
                let sustained = if state.sustained < u32::MAX { state.sustained + 1 } else { u32::MAX };
                if sustained < rule.sustain_samples {
                    return (KindState { sustained, ..state }, None);
                }
                let cooled = match state.last_raised_millis {
                    Some(raised) => at >= raised && at - raised >= rule.cooldown_millis,
                    None => false,
                };
                if state.active.is_some() && !cooled {
                    return (KindState { sustained, ..state }, None);
                }
                let subject = match &seen.subject {
                    Some(text) => Some(text.clone()),
                    None => None,
                };
                (
                    KindState {
                        sustained: 0,
                        active: Some(ActiveAlert {
                            kind: rule.kind,
                            value: seen.value,
                            threshold: rule.threshold,
                            subject: seen.subject,
                            raised_at_millis: at,
                        }),
                        last_raised_millis: Some(at),
                    },
                    Some(AlertEvent::Raised {
                        kind: rule.kind,
                        value: seen.value,
                        threshold: rule.threshold,
                        subject,
                        observed_at_millis: at,
                    }),
                )
            },
        }
    }

    /// Evaluates one observation per kind, in kind order, and returns the
    /// alerts raised or cleared. Kinds are evaluated independently.
    pub fn evaluate(&mut self, observations: Vec<Option<AlertObservation<V>>>, at: u64) -> (events: Vec<AlertEvent<V>>)
        requires
            old(self).wf(),
            observations@.len() == ALERT_KIND_COUNT,
        ensures
            final(self).wf(),
            final(self).policy_spec() == old(self).policy_spec(),
            final(self).failure_seq() == old(self).failure_seq(),
            forall|i: int| 0 <= i < ALERT_KIND_COUNT ==> #[trigger] final(self).state_seq()[i] == kind_step(
                old(self).policy_spec()[i],
                old(self).state_seq()[i],
                observations@[i],
                at,
            ).0,
            events@ == step_events(old(self).policy_spec(), old(self).state_seq(), observations@, at, ALERT_KIND_COUNT as nat),
    {
        let ghost rules = self.policy.rule_seq();
        let ghost before = self.states@;
        let ghost seen = observations@;
        let mut events: Vec<AlertEvent<V>> = Vec::new();
        let mut remaining = observations;
        let mut states: Vec<KindState<V>> = Vec::new();
        std::mem::swap(&mut states, &mut self.states);
        let mut updated: Vec<KindState<V>> = Vec::new();
        let mut index: usize = 0;
        while index < ALERT_KIND_COUNT
            invariant
                index <= ALERT_KIND_COUNT,
                rules == self.policy.rule_seq(),
                rules_in_order(rules),
                states@ == before.subrange(index as int, ALERT_KIND_COUNT as int),
                remaining@ == seen.subrange(index as int, ALERT_KIND_COUNT as int),
                before.len() == ALERT_KIND_COUNT,
                seen.len() == ALERT_KIND_COUNT,
                updated@.len() == index,
                forall|i: int| 0 <= i < index ==> #[trigger] updated@[i] == kind_step(rules[i], before[i], seen[i], at).0,
                events@ == step_events(rules, before, seen, at, index as nat),
                self.failures@ == old(self).failures@,
                self.policy.rule_seq() == old(self).policy.rule_seq(),
            decreases ALERT_KIND_COUNT - index,
        {
            let state = states.remove(0);
            let observation = remaining.remove(0);
            let (next, event) = Self::step_one(&self.policy.rules[index], state, observation, at);
            updated.push(next);
            match event {
                Some(found) => {
                    events.push(found);
                },
                None => {},
            }
            proof {
                assert(states@ =~= before.subrange(index + 1, ALERT_KIND_COUNT as int));
                assert(remaining@ =~= seen.subrange(index + 1, ALERT_KIND_COUNT as int));
            }
            index += 1;
        }
        self.states = updated;
        events
    }

    /// The raised alerts and delivery failures, in kind order.
    pub fn snapshot(&self) -> (snapshot: AlertSnapshot<V>)
        requires
            self.wf(),
        ensures
            snapshot.active@ == active_list(self.state_seq()),
            snapshot.delivery_failures@ == failure_list(self.failure_seq()),
    {
        let mut active: Vec<ActiveAlert<V>> = Vec::new();
        let mut failures: Vec<AlertDeliveryFailure> = Vec::new();
        let mut index: usize = 0;
        assert(self.states@.subrange(0, 0) =~= Seq::<KindState<V>>::empty());
        assert(self.failures@.subrange(0, 0) =~= Seq::<Option<AlertDeliveryFailure>>::empty());
        while index < ALERT_KIND_COUNT
            invariant
                self.wf(),
                index <= ALERT_KIND_COUNT,
                active@ == active_list(self.states@.subrange(0, index as int)),
                failures@ == failure_list(self.failures@.subrange(0, index as int)),
            decreases ALERT_KIND_COUNT - index,
        {
            let ghost next_states = self.states@.subrange(0, index + 1);
            let ghost next_failures = self.failures@.subrange(0, index + 1);
            assert(next_states.drop_last() =~= self.states@.subrange(0, index as int));
            assert(next_failures.drop_last() =~= self.failures@.subrange(0, index as int));
            match &self.states[index].active {
                Some(alert) => {
                    let subject = match &alert.subject {
                        Some(text) => Some(text.clone()),
                        None => None,
                    };
                    active.push(ActiveAlert {
                        kind: alert.kind,
                        value: alert.value,
                        threshold: alert.threshold,
                        subject,
                        raised_at_millis: alert.raised_at_millis,
                    });
                },
                None => {},
            }
            match &self.failures[index] {
                Some(failure) => {
                    failures.push(AlertDeliveryFailure { kind: failure.kind, message: failure.message.clone() });
                },
                None => {},
            }
            index += 1;
        }
        assert(self.states@.subrange(0, ALERT_KIND_COUNT as int) =~= self.states@);
        assert(self.failures@.subrange(0, ALERT_KIND_COUNT as int) =~= self.failures@);
        AlertSnapshot { active, delivery_failures: failures }
    }

    /// Records why a notification for `kind` could not be delivered.
    pub fn record_delivery_failure(&mut self, kind: AlertKind, message: &str)
        requires
            old(self).wf(),
        ensures
            final(self).wf(),
            final(self).policy_spec() == old(self).policy_spec(),
            final(self).state_seq() == old(self).state_seq(),
            final(self).failure_seq().len() == ALERT_KIND_COUNT,
            forall|i: int| 0 <= i < ALERT_KIND_COUNT && i != kind_position(kind) ==> #[trigger] final(self).failure_seq()[i]
                == old(self).failure_seq()[i],
            final(self).failure_seq()[kind_position(kind)] matches Some(failure) && failure.kind == kind
                && failure.message@ == message@,
    {
        self.failures.set(kind.index(), Some(AlertDeliveryFailure { kind, message: owned(message) }));
    }

    /// Forgets the delivery failure for `kind`.
    pub fn clear_delivery_failure(&mut self, kind: AlertKind)
        requires
            old(self).wf(),
        ensures
            final(self).wf(),
            final(self).policy_spec() == old(self).policy_spec(),
            final(self).state_seq() == old(self).state_seq(),
            final(self).failure_seq() == old(self).failure_seq().update(kind_position(kind), None),
    {
        self.failures.set(kind.index(), None);
    }
}

} // verus!
