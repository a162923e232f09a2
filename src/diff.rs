//! The diff computer: the sparse set of attribute changes that brings one
//! monitor from its observed state to its desired one.
use vstd::prelude::*;

use crate::model::{Controller, Mode, MonitorSpec, MonitorState, OutputState, Rotation};
use crate::modes::compatible;

verus! {

/// Sparse record of the changes a monitor needs; an absent field means that
/// attribute stays as it is.
#[derive(Clone, Copy, Debug, PartialEq, Eq)]
pub struct Diff {
    pub primary: Option<bool>,
    pub position: Option<(i32, i32)>,
    pub rotation: Option<Rotation>,
    pub mode: Option<Mode>,
}

/// Why no diff can be computed for a monitor.
#[derive(Clone, Copy, Debug, PartialEq, Eq, Structural)]
pub enum DiffError {
    /// The monitor does not have exactly one output.
    UnsupportedTopology,
    /// The output is not bound to a controller.
    NoController,
    /// No catalog mode suits the spec.
    NoCompatibleMode,
    /// Several modes suit the spec and none of them is current.
    AmbiguousMode,
}

/// The diff that changes nothing.
pub open spec fn neutral() -> Diff {
    Diff { primary: None, position: None, rotation: None, mode: None }
}

pub open spec fn is_neutral(d: Diff) -> bool {
    d.primary is None && d.position is None && d.rotation is None && d.mode is None
}

/// Whether the mode an output is driven at is one of the given modes.
pub open spec fn current_among(current: Option<u64>, modes: Seq<Mode>) -> bool {
    match current {
        None => false,
        Some(id) => exists|j: int| 0 <= j < modes.len() && #[trigger] modes[j].xid == id,
    }
}

/// The mode change an output needs, or the reason none can be chosen.
pub open spec fn mode_change(current: Option<u64>, compat: Seq<Mode>) -> Result<
    Option<Mode>,
    DiffError,
> {
    if compat.len() == 0 {
        Err(DiffError::NoCompatibleMode)
    } else if current_among(current, compat) {
        Ok(None)
    } else if compat.len() == 1 {
        Ok(Some(compat[0]))
    } else {
        Err(DiffError::AmbiguousMode)
    }
}

/// The diff of one output against a spec, given its controller and mode change.
pub open spec fn diff_of(spec: MonitorSpec, o: OutputState, c: Controller, mode: Option<Mode>) -> Diff {
    Diff {
        primary: if spec.primary && !o.primary {
            Some(true)
        } else {
            None
        },
        position: if c.x != spec.x || c.y != spec.y {
            Some((spec.x, spec.y))
        } else {
            None
        },
        rotation: if c.rotation != spec.rotation {
            Some(spec.rotation)
        } else {
            None
        },
        mode,
    }
}

/// The result of computing a monitor's diff from its outputs.
pub open spec fn monitor_diff(spec: MonitorSpec, outputs: Seq<OutputState>, catalog: Seq<Mode>) -> Result<
    Diff,
    DiffError,
> {
    if outputs.len() != 1 {
        Err(DiffError::UnsupportedTopology)
    } else {
        match outputs[0].controller {
            None => Err(DiffError::NoController),
            Some(c) => match mode_change(outputs[0].current_mode, compatible(spec, catalog)) {
                Err(e) => Err(e),
                Ok(m) => Ok(diff_of(spec, outputs[0], c, m)),
            },
        }
    }
}

impl Diff {
    /// The diff that changes nothing.
    pub fn neutral() -> (r: Diff)
        ensures
            r == neutral(),
    {
        Diff { primary: None, position: None, rotation: None, mode: None }
    }

    /// Whether this diff changes nothing.
    pub fn is_neutral(&self) -> (r: bool)
        ensures
            r == is_neutral(*self),
    {
        self.primary.is_none() && self.position.is_none() && self.rotation.is_none()
            && self.mode.is_none()
    }
}

impl Default for Diff {
    fn default() -> (r: Diff)
        ensures
            r == neutral(),
    {
        Diff::neutral()
    }
}

fn find_mode(modes: &Vec<Mode>, id: u64) -> (r: bool)
    ensures
        r == current_among(Some(id), modes@),
{
    let mut i: usize = 0;
    while i < modes.len()
        invariant
            i <= modes@.len(),
            forall|j: int| 0 <= j < i ==> #[trigger] modes@[j].xid != id,
        decreases modes@.len() - i,
    {
        if modes[i].xid == id {
            return true;
        }
        i = i + 1;
    }
    false
}

/// Computes the changes that bring `monitor` to `spec`. The monitor must have
/// exactly one output, bound to a controller. Only attributes that differ are
/// set; the mode is left alone when the current one is already compatible,
/// set when exactly one mode is compatible, and ambiguous otherwise. A
/// monitor is promoted to primary but never demoted.
pub fn compute_diff(spec: &MonitorSpec, monitor: &MonitorState, catalog: &[Mode]) -> (r: Result<
    Diff,
    DiffError,
>)
    ensures
        r == monitor_diff(*spec, monitor.outputs@, catalog@),
{
    if monitor.outputs.len() != 1 {
        return Err(DiffError::UnsupportedTopology);
    }
    let output = monitor.outputs[0];
    let c = match output.controller {
        None => {
            return Err(DiffError::NoController);
        },
        Some(c) => c,
    };
    let mut diff = Diff::neutral();
    if c.rotation != spec.rotation {
        diff.rotation = Some(spec.rotation);
    }
    if c.x != spec.x || c.y != spec.y {
        diff.position = Some((spec.x, spec.y));
    }
    let compat = spec.compatible_modes(catalog);
    if compat.len() == 0 {
        return Err(DiffError::NoCompatibleMode);
    }
    let is_current = match output.current_mode {
        None => false,
        Some(id) => find_mode(&compat, id),
    };
    if !is_current {
        if compat.len() != 1 {
            return Err(DiffError::AmbiguousMode);
        }
        diff.mode = Some(compat[0]);
    }
    if spec.primary && !output.primary {
        diff.primary = Some(true);
    }
    Ok(diff)
}

/// A monitor with more than one output is never reconciled.
pub proof fn lemma_several_outputs_unsupported(
    spec: MonitorSpec,
    outputs: Seq<OutputState>,
    catalog: Seq<Mode>,
)
    requires
        outputs.len() >= 2,
    ensures
        monitor_diff(spec, outputs, catalog) == Err::<Diff, DiffError>(
            DiffError::UnsupportedTopology,
        ),
{
}

/// When the current mode is already among the compatible ones, however many
/// there are, the diff switches no mode.
pub proof fn lemma_current_mode_kept(spec: MonitorSpec, outputs: Seq<OutputState>, catalog: Seq<Mode>)
    requires
        outputs.len() == 1,
        outputs[0].controller is Some,
        current_among(outputs[0].current_mode, compatible(spec, catalog)),
    ensures
        monitor_diff(spec, outputs, catalog) is Ok,
        monitor_diff(spec, outputs, catalog)->Ok_0.mode is None,
{
}

/// When the current mode is not compatible and exactly one mode is, the diff
/// switches to that mode.
pub proof fn lemma_single_candidate_chosen(
    spec: MonitorSpec,
    outputs: Seq<OutputState>,
    catalog: Seq<Mode>,
)
    requires
        outputs.len() == 1,
        outputs[0].controller is Some,
        !current_among(outputs[0].current_mode, compatible(spec, catalog)),
        compatible(spec, catalog).len() == 1,
    ensures
        monitor_diff(spec, outputs, catalog) is Ok,
        monitor_diff(spec, outputs, catalog)->Ok_0.mode == Some(compatible(spec, catalog)[0]),
{
}

/// When the current mode is not compatible and several modes are, no mode is
/// picked: the diff is ambiguous.
pub proof fn lemma_several_candidates_ambiguous(
    spec: MonitorSpec,
    outputs: Seq<OutputState>,
    catalog: Seq<Mode>,
)
    requires
        outputs.len() == 1,
        outputs[0].controller is Some,
        !current_among(outputs[0].current_mode, compatible(spec, catalog)),
        compatible(spec, catalog).len() >= 2,
    ensures
        monitor_diff(spec, outputs, catalog) == Err::<Diff, DiffError>(DiffError::AmbiguousMode),
{
}

} // verus!
