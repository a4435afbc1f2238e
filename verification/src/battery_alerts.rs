//! Low-battery notifications: once per discharge below the alert level,
//! re-armed when the battery charges or recovers.

use vstd::prelude::*;

use crate::quick_toggles::{BatteryAlertSource, BatteryReading, QuickToggleError};
use crate::text::{decimal, owned, push_decimal, str_equal};
use crate::toggle_rules::{ascii_lowercase, push_lowercase};

verus! {

/// The poll interval of the battery-alert worker, in milliseconds.
pub const DEFAULT_POLL_INTERVAL_MILLIS: u64 = 60_000;

/// At or below this charge a discharging battery is reported.
pub const LOW_BATTERY_PERCENT: u8 = 15;

/// Above this charge a battery is re-armed.
pub const RECOVERY_PERCENT: u8 = 20;

/// Whether a battery reports that it is discharging, in any letter case.
pub open spec fn is_discharging(reading: BatteryReading) -> bool {
    reading.status matches Some(status) && ascii_lowercase(status@) == "discharging"@
}

/// The notification text for a low battery.
pub open spec fn low_battery_body(name: Seq<char>, capacity: u8) -> Seq<char> {
    name + " is at "@ + decimal(capacity as nat) + "% and discharging. Connect power."@
}

/// Whether a pass over `readings` makes no notification, starting from the
/// batteries in `reported`: every reading that would be reported names a
/// battery reported before the pass and not named by an earlier reading.
pub open spec fn pass_is_quiet(readings: Seq<BatteryReading>, reported: Set<Seq<char>>) -> bool {
    forall|i: int| #![trigger readings[i]] 0 <= i < readings.len() && decide(readings[i], false) == Some(true)
        ==> reported.contains(readings[i].name@)
            && forall|j: int| 0 <= j < i ==> readings[j].name@ != readings[i].name@
}

/// The batteries reported after one reading: re-armed, reported, or as
/// they were.
pub open spec fn reading_step(reported: Set<Seq<char>>, reading: BatteryReading) -> Set<Seq<char>> {
    match decide(reading, reported.contains(reading.name@)) {
        None => reported,
        Some(false) => reported.remove(reading.name@),
        Some(true) => reported.insert(reading.name@),
    }
}

/// The batteries reported after a pass over `readings` in which every
/// notification was delivered.
pub open spec fn pass_result(reported: Set<Seq<char>>, readings: Seq<BatteryReading>) -> Set<Seq<char>>
    decreases readings.len(),
{
    if readings.len() == 0 {
        reported
    } else {
        reading_step(pass_result(reported, readings.drop_last()), readings.last())
    }
}

/// Whether a pass stopped at reading `k`: the readings before it were
/// handled, and reading `k` called for a notification, which failed.
pub open spec fn stopped_at(readings: Seq<BatteryReading>, start: Set<Seq<char>>, reported: Set<Seq<char>>, k: int) -> bool {
    &&& 0 <= k < readings.len()
    &&& reported == pass_result(start, readings.subrange(0, k))
    &&& decide(readings[k], reported.contains(readings[k].name@)) == Some(true)
}

/// What one reading calls for.
#[derive(Debug, Clone, PartialEq, Eq)]
pub enum BatteryDecision {
    /// Nothing changes.
    Keep,
    /// The battery is charging or recovered: it may alert again.
    Rearm,
    /// The battery is low and has not been reported: report it.
    Notify { body: String },
}

/// The decision for one reading, given whether the battery was reported:
/// unknown charge changes nothing; charging or a charge above the recovery
/// level re-arms; a discharging battery at or below the alert level that was
/// not reported yet is reported.
pub open spec fn decide(reading: BatteryReading, reported: bool) -> Option<bool> {
    match reading.capacity {
        None => None,
        Some(capacity) => if !is_discharging(reading) || capacity > RECOVERY_PERCENT {
            Some(false)
        } else if capacity <= LOW_BATTERY_PERCENT && !reported {
            Some(true)
        } else {
            None
        },
    }
}

fn discharging(status: &Option<String>) -> (found: bool)
    ensures
        found == (*status matches Some(text) && ascii_lowercase(text@) == "discharging"@),
{
    match status {
        Some(text) => {
            let mut lowered = String::new();
            push_lowercase(&mut lowered, text.as_str());
            assert(lowered@ =~= ascii_lowercase(text@));
            str_equal(lowered.as_str(), "discharging")
        },
        None => false,
    }
}

/// Decides what one reading calls for.
pub fn battery_decision(reading: &BatteryReading, reported: bool) -> (decision: BatteryDecision)
    ensures
        match decide(*reading, reported) {
            None => decision == BatteryDecision::Keep,
            Some(false) => decision == BatteryDecision::Rearm,
            Some(true) => decision matches BatteryDecision::Notify { body }
                && body@ == low_battery_body(reading.name@, reading.capacity->0),
        },
{
    let capacity = match reading.capacity {
        None => {
            return BatteryDecision::Keep;
        },
        Some(capacity) => capacity,
    };
    if !discharging(&reading.status) || capacity > RECOVERY_PERCENT {
        return BatteryDecision::Rearm;
    }
    if capacity <= LOW_BATTERY_PERCENT && !reported {
        let mut body = reading.name.clone();
        body.append(" is at ");
        push_decimal(&mut body, capacity as u64);
        body.append("% and discharging. Connect power.");
        return BatteryDecision::Notify { body };
    }
    BatteryDecision::Keep
}

/// The batteries already reported in the current discharge.
pub struct BatteryAlertState {
    reported: Vec<String>,
}

impl View for BatteryAlertState {
    type V = Set<Seq<char>>;

    closed spec fn view(&self) -> Set<Seq<char>> {
        self.reported@.map_values(|name: String| name@).to_set()
    }
}

impl BatteryAlertState {
    /// No battery reported.
    pub fn new() -> (state: Self)
        ensures
            state@ == Set::<Seq<char>>::empty(),
    {
        let state = BatteryAlertState { reported: Vec::new() };
        assert(state.reported@.map_values(|name: String| name@) =~= Seq::<Seq<char>>::empty());
        state
    }

    fn position(&self, name: &str) -> (found: Option<usize>)
        ensures
            found matches Some(index) ==> index < self.reported@.len() && self.reported@[index as int]@ == name@,
            found is None ==> !self@.contains(name@),
    {
        let mut index: usize = 0;
        while index < self.reported.len()
            invariant
                index <= self.reported@.len(),
                forall|j: int| 0 <= j < index ==> self.reported@[j]@ != name@,
            decreases self.reported@.len() - index,
        {
            if str_equal(self.reported[index].as_str(), name) {
                return Some(index);
            }
            index += 1;
        }
        proof {
            if self@.contains(name@) {
                let names = self.reported@.map_values(|entry: String| entry@);
                let j = choose|j: int| 0 <= j < names.len() && names[j] == name@;
                assert(self.reported@[j]@ == name@);
            }
        }
        None
    }

    /// Whether `name` was reported in its current discharge.
    pub fn contains(&self, name: &str) -> (found: bool)
        ensures
            found == self@.contains(name@),
    {
        match self.position(name) {
            Some(index) => {
                proof {
                    let names = self.reported@.map_values(|entry: String| entry@);
                    assert(names[index as int] == name@);
                }
                true
            },
            None => false,
        }
    }

    /// Marks `name` as reported.
    pub fn insert(&mut self, name: &str)
        ensures
            final(self)@ == old(self)@.insert(name@),
    {
        if self.contains(name) {
            assert(old(self)@.insert(name@) =~= old(self)@);
            return;
        }
        let ghost before = self.reported@.map_values(|entry: String| entry@);
        self.reported.push(owned(name));
        proof {
            let after = self.reported@.map_values(|entry: String| entry@);
            assert(after =~= before.push(name@));
            assert(after.to_set() =~= before.to_set().insert(name@)) by {
                before.lemma_push_to_set_commute(name@);
            }
        }
    }

    /// Re-arms `name`.
    pub fn remove(&mut self, name: &str)
        ensures
            final(self)@ == old(self)@.remove(name@),
    {
        let mut kept: Vec<String> = Vec::new();
        let mut index: usize = 0;
        let ghost names = self.reported@.map_values(|entry: String| entry@);
        while index < self.reported.len()
            invariant
                names == self.reported@.map_values(|entry: String| entry@),
                index <= self.reported@.len(),
                kept@.map_values(|entry: String| entry@).to_set() == names.subrange(0, index as int).to_set().remove(name@),
            decreases self.reported@.len() - index,
        {
            let ghost prefix = names.subrange(0, index + 1);
            assert(prefix =~= names.subrange(0, index as int).push(names[index as int]));
            let ghost kept_before = kept@.map_values(|entry: String| entry@);
            proof {
                names.subrange(0, index as int).lemma_push_to_set_commute(names[index as int]);
            }
            if !str_equal(self.reported[index].as_str(), name) {
                kept.push(self.reported[index].clone());
                proof {
                    let kept_after = kept@.map_values(|entry: String| entry@);
                    assert(kept_after =~= kept_before.push(names[index as int]));
                    kept_before.lemma_push_to_set_commute(names[index as int]);
                    assert(kept_after.to_set() =~= prefix.to_set().remove(name@));
                }
            } else {
                assert(kept@.map_values(|entry: String| entry@).to_set() =~= prefix.to_set().remove(name@));
            }
            index += 1;
        }
        assert(names.subrange(0, names.len() as int) =~= names);
        self.reported = kept;
    }
}

/// Reports each low, discharging battery once per discharge, and re-arms
/// batteries that charge or recover. A failed notification stops the pass
/// and is returned.
pub fn process_readings<S: BatteryAlertSource>(
    source: &S,
    readings: &[BatteryReading],
    state: &mut BatteryAlertState,
) -> (result: Result<(), QuickToggleError>)
    ensures
        result is Ok ==> forall|i: int| #![trigger readings@[i]] 0 <= i < readings@.len() && readings@[i].capacity is Some
            && (!is_discharging(readings@[i]) || readings@[i].capacity->0 > RECOVERY_PERCENT)
            && (forall|j: int| i < j < readings@.len() ==> readings@[j].name@ != readings@[i].name@)
            ==> !final(state)@.contains(readings@[i].name@),
        result is Ok ==> forall|i: int| #![trigger readings@[i]] 0 <= i < readings@.len() && decide(readings@[i], false) == Some(true)
            && (forall|j: int| i < j < readings@.len() ==> readings@[j].name@ != readings@[i].name@)
            ==> final(state)@.contains(readings@[i].name@),
        pass_is_quiet(readings@, old(state)@) ==> result is Ok,
        result is Ok ==> final(state)@ == pass_result(old(state)@, readings@),
        result is Err ==> exists|k: int| #[trigger] stopped_at(readings@, old(state)@, final(state)@, k),
{
    let ghost start = state@;
    let mut index: usize = 0;
    while index < readings.len()
        invariant
            index <= readings@.len(),
            forall|i: int| #![trigger readings@[i]] 0 <= i < index && readings@[i].capacity is Some
                && (!is_discharging(readings@[i]) || readings@[i].capacity->0 > RECOVERY_PERCENT)
                && (forall|j: int| i < j < index ==> readings@[j].name@ != readings@[i].name@)
                ==> !state@.contains(readings@[i].name@),
            forall|i: int| #![trigger readings@[i]] 0 <= i < index && decide(readings@[i], false) == Some(true)
                && (forall|j: int| i < j < index ==> readings@[j].name@ != readings@[i].name@)
                ==> state@.contains(readings@[i].name@),
            start == old(state)@,
            state@ == pass_result(start, readings@.subrange(0, index as int)),
            forall|name: Seq<char>| #![trigger state@.contains(name)]
                (forall|j: int| 0 <= j < index ==> readings@[j].name@ != name)
                ==> state@.contains(name) == start.contains(name),
        decreases readings@.len() - index,
    {
        let reading = &readings[index];
        let reported = state.contains(reading.name.as_str());
        let ghost before = state@;
        proof {
            let prefix = readings@.subrange(0, index + 1);
            assert(prefix.drop_last() =~= readings@.subrange(0, index as int));
            assert(prefix.last() == *reading);
        }
        match battery_decision(reading, reported) {
            BatteryDecision::Keep => {
                proof {
                    if decide(*reading, false) == Some(true) {
                        assert(reported);
                    }
                }
            },
            BatteryDecision::Rearm => {
                state.remove(reading.name.as_str());
            },
            BatteryDecision::Notify { body } => {
                match source.notify_low_battery("Low battery", body.as_str()) {
                    Ok(()) => {},
                    Err(error) => {
                        proof {
                            assert(stopped_at(readings@, start, state@, index as int));
                            if pass_is_quiet(readings@, start) {
                                assert(readings@[index as int] == *reading);
                                assert(state@.contains(reading.name@));
                            }
                        }
                        return Err(error);
                    },
                }
                state.insert(reading.name.as_str());
            },
        }
        index += 1;
    }
    assert(readings@.subrange(0, readings@.len() as int) =~= readings@);
    Ok(())
}

} // verus!
