//! The diff applier: the ordered mutations that carry out a diff, and their
//! effect on an output's observed state.
use vstd::prelude::*;

use crate::diff::{Diff, is_neutral, monitor_diff, neutral};
use crate::model::{Controller, Mode, MonitorSpec, OutputState, Rotation};

verus! {

/// An attribute of an output that a mutation changes.
#[derive(Clone, Copy, Debug, PartialEq, Eq, Structural)]
pub enum Attribute {
    Primary,
    Position,
    Rotation,
    Mode,
}

/// One mutation call against the display server.
#[derive(Clone, Copy, Debug, PartialEq, Eq, Structural)]
pub enum Action {
    SetPrimary,
    SetPosition(i32, i32),
    SetRotation(Rotation),
    SetMode(Mode),
}

/// A mutation the display server rejected, or one this design cannot express.
#[derive(Clone, Copy, Debug, PartialEq, Eq, Structural)]
pub struct ApplyError {
    pub attribute: Attribute,
}

pub open spec fn attribute_of(a: Action) -> Attribute {
    match a {
        Action::SetPrimary => Attribute::Primary,
        Action::SetPosition(_, _) => Attribute::Position,
        Action::SetRotation(_) => Attribute::Rotation,
        Action::SetMode(_) => Attribute::Mode,
    }
}

/// The mutations of a diff in their fixed order: primary flag, position,
/// rotation, and the mode last.
pub open spec fn actions_of(d: Diff) -> Seq<Action> {
    (if d.primary == Some(true) {
        seq![Action::SetPrimary]
    } else {
        seq![]
    }) + (match d.position {
        Some(p) => seq![Action::SetPosition(p.0, p.1)],
        None => seq![],
    }) + (match d.rotation {
        Some(r) => seq![Action::SetRotation(r)],
        None => seq![],
    }) + (match d.mode {
        Some(m) => seq![Action::SetMode(m)],
        None => seq![],
    })
}

/// The observed state of an output after one successful mutation.
pub open spec fn after_action(o: OutputState, a: Action) -> OutputState {
    match a {
        Action::SetPrimary => OutputState { primary: true, ..o },
        Action::SetPosition(x, y) => OutputState {
            controller: match o.controller {
                Some(c) => Some(Controller { x, y, ..c }),
                None => None,
            },
            ..o
        },
        Action::SetRotation(r) => OutputState {
            controller: match o.controller {
                Some(c) => Some(Controller { rotation: r, ..c }),
                None => None,
            },
            ..o
        },
        Action::SetMode(m) => OutputState { current_mode: Some(m.xid), ..o },
    }
}

/// The observed state of an output after a run of successful mutations.
pub open spec fn after_actions(o: OutputState, actions: Seq<Action>) -> OutputState
    decreases actions.len(),
{
    if actions.len() == 0 {
        o
    } else {
        after_actions(after_action(o, actions[0]), actions.drop_first())
    }
}

pub proof fn lemma_after_actions_concat(o: OutputState, a: Seq<Action>, b: Seq<Action>)
    ensures
        after_actions(o, a + b) == after_actions(after_actions(o, a), b),
    decreases a.len(),
{
    if a.len() == 0 {
        assert(a + b =~= b);
    } else {
        assert((a + b).drop_first() =~= a.drop_first() + b);
        lemma_after_actions_concat(after_action(o, a[0]), a.drop_first(), b);
    }
}

proof fn lemma_after_one(o: OutputState, x: Action)
    ensures
        after_actions(o, seq![x]) == after_action(o, x),
{
    assert(seq![x].drop_first() =~= Seq::<Action>::empty());
    assert(after_actions(after_action(o, x), Seq::<Action>::empty()) == after_action(o, x));
}

impl Action {
    /// The attribute this mutation changes, for reporting a rejection.
    pub fn attribute(&self) -> (r: Attribute)
        ensures
            r == attribute_of(*self),
    {
        match self {
            Action::SetPrimary => Attribute::Primary,
            Action::SetPosition(_, _) => Attribute::Position,
            Action::SetRotation(_) => Attribute::Rotation,
            Action::SetMode(_) => Attribute::Mode,
        }
    }
}

/// The mutations that carry out `diff`, in the order in which they must be
/// issued. A diff that demotes a monitor from primary cannot be carried out:
/// the control surface has no such call.
pub fn apply_plan(diff: &Diff) -> (r: Result<Vec<Action>, ApplyError>)
    ensures
        diff.primary == Some(false) ==> r == Err::<Vec<Action>, ApplyError>(
            ApplyError { attribute: Attribute::Primary },
        ),
        diff.primary != Some(false) ==> r is Ok && r->Ok_0@ == actions_of(*diff),
{
    if diff.primary == Some(false) {
        return Err(ApplyError { attribute: Attribute::Primary });
    }
    let mut plan: Vec<Action> = Vec::new();
    if diff.primary == Some(true) {
        plan.push(Action::SetPrimary);
    }
    let ghost s1 = plan@;
    if let Some((x, y)) = diff.position {
        plan.push(Action::SetPosition(x, y));
    }
    let ghost s2 = plan@;
    if let Some(rotation) = diff.rotation {
        plan.push(Action::SetRotation(rotation));
    }
    let ghost s3 = plan@;
    if let Some(mode) = diff.mode {
        plan.push(Action::SetMode(mode));
    }
    proof {
        let a = if diff.primary == Some(true) {
            seq![Action::SetPrimary]
        } else {
            seq![]
        };
        let b = match diff.position {
            Some(p) => seq![Action::SetPosition(p.0, p.1)],
            None => seq![],
        };
        let c = match diff.rotation {
            Some(r) => seq![Action::SetRotation(r)],
            None => seq![],
        };
        let d = match diff.mode {
            Some(m) => seq![Action::SetMode(m)],
            None => seq![],
        };
        assert(s1 =~= a);
        assert(s2 =~= a + b);
        assert(s3 =~= a + b + c);
        assert(plan@ =~= a + b + c + d);
    }
    Ok(plan)
}

/// The state an output is observed in after `actions` all succeeded.
pub fn simulate_actions(o: &OutputState, actions: &[Action]) -> (r: OutputState)
    ensures
        r == after_actions(*o, actions@),
{
    let mut cur = *o;
    let mut i: usize = 0;
    while i < actions.len()
        invariant
            i <= actions@.len(),
            cur == after_actions(*o, actions@.subrange(0, i as int)),
        decreases actions@.len() - i,
    {
        let a = actions[i];
        proof {
            let pre = actions@.subrange(0, i as int);
            assert(actions@.subrange(0, i as int + 1) =~= pre + seq![a]);
            lemma_after_actions_concat(*o, pre, seq![a]);
            lemma_after_one(cur, a);
        }
        cur = match a {
            Action::SetPrimary => OutputState { primary: true, ..cur },
            Action::SetPosition(x, y) => OutputState {
                controller: match cur.controller {
                    Some(c) => Some(Controller { x, y, ..c }),
                    None => None,
                },
                ..cur
            },
            Action::SetRotation(r) => OutputState {
                controller: match cur.controller {
                    Some(c) => Some(Controller { rotation: r, ..c }),
                    None => None,
                },
                ..cur
            },
            Action::SetMode(m) => OutputState { current_mode: Some(m.xid), ..cur },
        };
        i = i + 1;
    }
    proof {
        assert(actions@.subrange(0, actions@.len() as int) =~= actions@);
    }
    cur
}

/// Applying a computed diff converges: a computed diff never demotes, so it
/// can always be planned, and once every mutation of its plan has succeeded,
/// computing the diff again against the resulting state gives the diff that
/// changes nothing.
pub proof fn lemma_apply_converges(spec: MonitorSpec, outputs: Seq<OutputState>, catalog: Seq<Mode>)
    requires
        monitor_diff(spec, outputs, catalog) is Ok,
    ensures
        monitor_diff(spec, outputs, catalog)->Ok_0.primary != Some(false),
        monitor_diff(
            spec,
            seq![after_actions(outputs[0], actions_of(monitor_diff(spec, outputs, catalog)->Ok_0))],
            catalog,
        ) == Ok::<Diff, crate::diff::DiffError>(neutral()),
{
    let d = monitor_diff(spec, outputs, catalog)->Ok_0;
    let o = outputs[0];
    let a = if d.primary == Some(true) {
        seq![Action::SetPrimary]
    } else {
        seq![]
    };
    let b = match d.position {
        Some(p) => seq![Action::SetPosition(p.0, p.1)],
        None => seq![],
    };
    let c = match d.rotation {
        Some(r) => seq![Action::SetRotation(r)],
        None => seq![],
    };
    let e = match d.mode {
        Some(m) => seq![Action::SetMode(m)],
        None => seq![],
    };
    lemma_after_actions_concat(o, a + b + c, e);
    lemma_after_actions_concat(o, a + b, c);
    lemma_after_actions_concat(o, a, b);
    let o1 = after_actions(o, a);
    let o2 = after_actions(o1, b);
    let o3 = after_actions(o2, c);
    let o4 = after_actions(o3, e);
    if d.primary == Some(true) {
        lemma_after_one(o, Action::SetPrimary);
    } else {
        assert(a =~= Seq::<Action>::empty());
    }
    match d.position {
        Some(p) => lemma_after_one(o1, Action::SetPosition(p.0, p.1)),
        None => assert(b =~= Seq::<Action>::empty()),
    }
    match d.rotation {
        Some(r) => lemma_after_one(o2, Action::SetRotation(r)),
        None => assert(c =~= Seq::<Action>::empty()),
    }
    match d.mode {
        Some(m) => lemma_after_one(o3, Action::SetMode(m)),
        None => assert(e =~= Seq::<Action>::empty()),
    }
    assert(after_actions(o, actions_of(d)) == o4);
    let compat = crate::modes::compatible(spec, catalog);
    if d.mode is Some {
        assert(o4.current_mode == Some(compat[0].xid));
        assert(crate::diff::current_among(o4.current_mode, compat));
    }
    assert(is_neutral(monitor_diff(spec, seq![o4], catalog)->Ok_0));
}

} // verus!
