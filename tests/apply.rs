use randrd::apply::{apply_plan, simulate_actions, Action, ApplyError, Attribute};
use randrd::diff::{compute_diff, Diff};
use randrd::model::{Controller, Mode, MonitorSpec, MonitorState, OutputState, Rotation};

fn catalog() -> Vec<Mode> {
    vec![
        Mode { xid: 1, width: 1920, height: 1080, rate_mhz: 59_900 },
        Mode { xid: 2, width: 2560, height: 1440, rate_mhz: 144_000 },
    ]
}

fn out() -> OutputState {
    OutputState {
        xid: 70,
        connected: true,
        current_mode: Some(1),
        controller: Some(Controller { xid: 40, rotation: Rotation::Normal, x: 0, y: 0 }),
        primary: false,
    }
}

#[test]
fn plan_follows_fixed_order() {
    let m = Mode { xid: 2, width: 2560, height: 1440, rate_mhz: 144_000 };
    let d = Diff { primary: Some(true), position: Some((5, 6)), rotation: Some(Rotation::Inverted), mode: Some(m) };
    assert_eq!(
        apply_plan(&d),
        Ok(vec![Action::SetPrimary, Action::SetPosition(5, 6), Action::SetRotation(Rotation::Inverted), Action::SetMode(m)])
    );
}

#[test]
fn plan_skips_absent_fields() {
    let d = Diff { primary: None, position: None, rotation: Some(Rotation::Left), mode: None };
    assert_eq!(apply_plan(&d), Ok(vec![Action::SetRotation(Rotation::Left)]));
    assert_eq!(apply_plan(&Diff::neutral()), Ok(vec![]));
}

#[test]
fn demotion_cannot_be_applied() {
    let d = Diff { primary: Some(false), position: Some((1, 1)), rotation: None, mode: None };
    assert_eq!(apply_plan(&d), Err(ApplyError { attribute: Attribute::Primary }));
}

#[test]
fn each_action_names_its_attribute() {
    assert_eq!(Action::SetPrimary.attribute(), Attribute::Primary);
    assert_eq!(Action::SetPosition(0, 0).attribute(), Attribute::Position);
    assert_eq!(Action::SetRotation(Rotation::Right).attribute(), Attribute::Rotation);
    assert_eq!(Action::SetMode(catalog()[0]).attribute(), Attribute::Mode);
}

#[test]
fn simulated_actions_update_output() {
    let m = catalog()[1];
    let after = simulate_actions(
        &out(),
        &[Action::SetPrimary, Action::SetPosition(-5, 7), Action::SetRotation(Rotation::Left), Action::SetMode(m)],
    );
    assert!(after.primary);
    assert_eq!(after.current_mode, Some(2));
    assert_eq!(after.controller, Some(Controller { xid: 40, rotation: Rotation::Left, x: -5, y: 7 }));
}

#[test]
fn applying_a_diff_converges() {
    let spec = MonitorSpec {
        width: 2560,
        height: 1440,
        refresh_rate_mhz: Some(144_000),
        primary: true,
        rotation: Rotation::Right,
        x: 100,
        y: 200,
    };
    let before = MonitorState { name: String::from("HDMI-1"), outputs: vec![out()] };
    let d = compute_diff(&spec, &before, &catalog()).unwrap();
    assert!(!d.is_neutral());
    let plan = apply_plan(&d).unwrap();
    assert_eq!(plan.len(), 4);
    let after = MonitorState { name: before.name.clone(), outputs: vec![simulate_actions(&before.outputs[0], &plan)] };
    assert_eq!(compute_diff(&spec, &after, &catalog()), Ok(Diff::neutral()));
}
