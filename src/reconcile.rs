//! The reconciliation loop's decisions: the desired configuration, the plan
//! for each observed monitor, and each monitor's outcome.
use vstd::prelude::*;

use crate::apply::ApplyError;
use crate::diff::{Diff, DiffError, compute_diff, is_neutral, monitor_diff};
use crate::model::{Mode, MonitorSpec, MonitorState, OutputState};

verus! {

/// A named entry of the desired configuration.
#[derive(Clone, Debug)]
pub struct ConfigEntry {
    pub name: String,
    pub spec: MonitorSpec,
}

/// The desired configuration: monitor names, each unique, mapped to specs.
#[derive(Clone, Debug)]
pub struct DesiredConfig {
    entries: Vec<ConfigEntry>,
}

/// What to do for one observed monitor.
#[derive(Clone, Copy, Debug, PartialEq, Eq)]
pub enum MonitorPlan {
    /// The monitor's name is not configured.
    Unconfigured,
    /// The monitor cannot be reconciled, for the reason given.
    Skipped(DiffError),
    /// The monitor already matches its spec.
    NoChange,
    /// The monitor needs the given changes.
    Apply(Diff),
}

/// How one monitor's reconciliation ended.
#[derive(Clone, Copy, Debug, PartialEq, Eq)]
pub enum MonitorOutcome {
    Unconfigured,
    Skipped(DiffError),
    NoChange,
    Applied,
    Failed(ApplyError),
}

/// The plan for a monitor with the given outputs under a configured spec.
pub open spec fn plan_for(spec: MonitorSpec, outputs: Seq<OutputState>, catalog: Seq<Mode>) -> MonitorPlan {
    match monitor_diff(spec, outputs, catalog) {
        Err(e) => MonitorPlan::Skipped(e),
        Ok(d) => if is_neutral(d) {
            MonitorPlan::NoChange
        } else {
            MonitorPlan::Apply(d)
        },
    }
}

/// The plan for a named monitor under a configuration.
pub open spec fn plan_of(
    config: Map<Seq<char>, MonitorSpec>,
    name: Seq<char>,
    outputs: Seq<OutputState>,
    catalog: Seq<Mode>,
) -> MonitorPlan {
    if config.contains_key(name) {
        plan_for(config[name], outputs, catalog)
    } else {
        MonitorPlan::Unconfigured
    }
}

/// The outcome of a plan, given how applying it went; the result of applying
/// matters only for a plan that applies changes.
pub open spec fn outcome_of(plan: MonitorPlan, applied: Result<(), ApplyError>) -> MonitorOutcome {
    match plan {
        MonitorPlan::Unconfigured => MonitorOutcome::Unconfigured,
        MonitorPlan::Skipped(e) => MonitorOutcome::Skipped(e),
        MonitorPlan::NoChange => MonitorOutcome::NoChange,
        MonitorPlan::Apply(_) => match applied {
            Ok(_) => MonitorOutcome::Applied,
            Err(e) => MonitorOutcome::Failed(e),
        },
    }
}

pub open spec fn names_unique(entries: Seq<ConfigEntry>) -> bool {
    forall|i: int, j: int|
        0 <= i < entries.len() && 0 <= j < entries.len() && #[trigger] entries[i].name@
            == #[trigger] entries[j].name@ ==> i == j
}

pub open spec fn entries_map(entries: Seq<ConfigEntry>) -> Map<Seq<char>, MonitorSpec> {
    Map::new(
        |k: Seq<char>| exists|i: int| 0 <= i < entries.len() && #[trigger] entries[i].name@ == k,
        |k: Seq<char>|
            entries[choose|i: int| 0 <= i < entries.len() && #[trigger] entries[i].name@ == k].spec,
    )
}

proof fn lemma_entry_in_map(entries: Seq<ConfigEntry>, i: int)
    requires
        names_unique(entries),
        0 <= i < entries.len(),
    ensures
        entries_map(entries).contains_key(entries[i].name@),
        entries_map(entries)[entries[i].name@] == entries[i].spec,
{
    let k = entries[i].name@;
    assert(entries[i].name@ == k);
    let j = choose|j: int| 0 <= j < entries.len() && #[trigger] entries[j].name@ == k;
    assert(entries[j].name@ == entries[i].name@);
}

impl View for DesiredConfig {
    type V = Map<Seq<char>, MonitorSpec>;

    closed spec fn view(&self) -> Map<Seq<char>, MonitorSpec> {
        entries_map(self.entries@)
    }
}

impl DesiredConfig {
    /// Each configured name occurs once.
    pub closed spec fn wf(&self) -> bool {
        names_unique(self.entries@)
    }

    /// The configuration with no monitor in it.
    pub fn new() -> (r: DesiredConfig)
        ensures
            r.wf(),
            r@ == Map::<Seq<char>, MonitorSpec>::empty(),
    {
        let r = DesiredConfig { entries: Vec::new() };
        assert(r@ =~= Map::<Seq<char>, MonitorSpec>::empty());
        r
    }

    fn position_of(&self, name: &String) -> (r: Option<usize>)
        ensures
            r is None ==> forall|i: int|
                0 <= i < self.entries@.len() ==> #[trigger] self.entries@[i].name@ != name@,
            r is Some ==> r->0 < self.entries@.len() && self.entries@[r->0 as int].name@ == name@,
    {
        let mut i: usize = 0;
        while i < self.entries.len()
            invariant
                i <= self.entries@.len(),
                forall|j: int| 0 <= j < i ==> #[trigger] self.entries@[j].name@ != name@,
            decreases self.entries@.len() - i,
        {
            if self.entries[i].name == *name {
                return Some(i);
            }
            i = i + 1;
        }
        None
    }

    /// The spec configured for `name`, if any.
    pub fn get(&self, name: &String) -> (r: Option<MonitorSpec>)
        requires
            self.wf(),
        ensures
            r is Some <==> self@.contains_key(name@),
            r is Some ==> r->0 == self@[name@],
    {
        match self.position_of(name) {
            None => None,
            Some(i) => {
                proof {
                    lemma_entry_in_map(self.entries@, i as int);
                }
                Some(self.entries[i].spec)
            },
        }
    }

    /// Configures `name` with `spec`, replacing any spec it had.
    pub fn insert(&mut self, name: String, spec: MonitorSpec)
        requires
            old(self).wf(),
        ensures
            final(self).wf(),
            final(self)@ == old(self)@.insert(name@, spec),
    {
        let ghost old_entries = self.entries@;
        let pos = self.position_of(&name);
        let ghost key = name@;
        let entry = ConfigEntry { name, spec };
        match pos {
            Some(i) => {
                self.entries.set(i, entry);
            },
            None => {
                self.entries.push(entry);
            },
        }
        proof {
            let e = self.entries@;
            let kidx: int = match pos {
                Some(i) => i as int,
                None => old_entries.len() as int,
            };
            assert(0 <= kidx < e.len() && e[kidx].name@ == key && e[kidx].spec == spec);
            assert(e.len() >= old_entries.len());
            assert forall|j: int| 0 <= j < e.len() && j != kidx implies #[trigger] e[j]
                == old_entries[j] && e[j].name@ != key by {
                if let Some(i) = pos {
                    assert(old_entries[i as int].name@ == key);
                }
            }
            assert(names_unique(e)) by {
                assert forall|a: int, b: int|
                    0 <= a < e.len() && 0 <= b < e.len() && #[trigger] e[a].name@
                        == #[trigger] e[b].name@ implies a == b by {
                    if a != kidx && b != kidx {
                        assert(old_entries[a].name@ == old_entries[b].name@);
                    }
                }
            }
            assert forall|k: Seq<char>|
                #[trigger] entries_map(e).contains_key(k) == entries_map(old_entries).insert(
                    key,
                    spec,
                ).contains_key(k) by {
                if k == key {
                    assert(e[kidx].name@ == k);
                } else {
                    if exists|i: int| 0 <= i < e.len() && #[trigger] e[i].name@ == k {
                        let i = choose|i: int| 0 <= i < e.len() && #[trigger] e[i].name@ == k;
                        assert(i != kidx);
                        assert(old_entries[i].name@ == k);
                    }
                    if exists|i: int|
                        0 <= i < old_entries.len() && #[trigger] old_entries[i].name@ == k {
                        let i = choose|i: int|
                            0 <= i < old_entries.len() && #[trigger] old_entries[i].name@ == k;
                        if i == kidx {
                            assert(old_entries[i].name@ == key);
                        }
                        assert(e[i].name@ == k);
                    }
                }
            }
            assert forall|k: Seq<char>| #[trigger]
                entries_map(e).contains_key(k) implies entries_map(e)[k] == entries_map(
                old_entries,
            ).insert(key, spec)[k] by {
                let i = choose|i: int| 0 <= i < e.len() && #[trigger] e[i].name@ == k;
                lemma_entry_in_map(e, i);
                if k != key {
                    assert(i != kidx);
                    assert(old_entries[i].name@ == k);
                    lemma_entry_in_map(old_entries, i);
                }
            }
            assert(entries_map(e) =~= entries_map(old_entries).insert(key, spec));
        }
    }
}

/// Decides what to do for one observed monitor: nothing when it is not
/// configured, a skip when its diff cannot be computed, and otherwise the
/// diff, unless the diff changes nothing.
pub fn plan_monitor(config: &DesiredConfig, monitor: &MonitorState, catalog: &[Mode]) -> (r:
    MonitorPlan)
    requires
        config.wf(),
    ensures
        r == plan_of(config@, monitor.name@, monitor.outputs@, catalog@),
{
    match config.get(&monitor.name) {
        None => MonitorPlan::Unconfigured,
        Some(spec) => match compute_diff(&spec, monitor, catalog) {
            Err(e) => MonitorPlan::Skipped(e),
            Ok(d) => if d.is_neutral() {
                MonitorPlan::NoChange
            } else {
                MonitorPlan::Apply(d)
            },
        },
    }
}

/// Plans every observed monitor independently, in the order given.
pub fn reconcile(config: &DesiredConfig, monitors: &[MonitorState], catalog: &[Mode]) -> (r: Vec<
    MonitorPlan,
>)
    requires
        config.wf(),
    ensures
        r@.len() == monitors@.len(),
        forall|i: int|
            0 <= i < monitors@.len() ==> #[trigger] r@[i] == plan_of(
                config@,
                monitors@[i].name@,
                monitors@[i].outputs@,
                catalog@,
            ),
{
    let mut plans: Vec<MonitorPlan> = Vec::new();
    let mut i: usize = 0;
    while i < monitors.len()
        invariant
            config.wf(),
            i <= monitors@.len(),
            plans@.len() == i,
            forall|j: int|
                0 <= j < i ==> #[trigger] plans@[j] == plan_of(
                    config@,
                    monitors@[j].name@,
                    monitors@[j].outputs@,
                    catalog@,
                ),
        decreases monitors@.len() - i,
    {
        let p = plan_monitor(config, &monitors[i], catalog);
        plans.push(p);
        i = i + 1;
    }
    plans
}

impl MonitorPlan {
    /// How this monitor's reconciliation ended; `applied` is how carrying out
    /// the diff went, and is read only for a plan that applies changes.
    pub fn outcome(&self, applied: Result<(), ApplyError>) -> (r: MonitorOutcome)
        ensures
            r == outcome_of(*self, applied),
    {
        match self {
            MonitorPlan::Unconfigured => MonitorOutcome::Unconfigured,
            MonitorPlan::Skipped(e) => MonitorOutcome::Skipped(*e),
            MonitorPlan::NoChange => MonitorOutcome::NoChange,
            MonitorPlan::Apply(_) => match applied {
                Ok(_) => MonitorOutcome::Applied,
                Err(e) => MonitorOutcome::Failed(e),
            },
        }
    }
}

} // verus!
