use randrd::apply::{ApplyError, Attribute};
use randrd::diff::{Diff, DiffError};
use randrd::model::{Controller, Mode, MonitorSpec, MonitorState, OutputState, Rotation};
use randrd::reconcile::{plan_monitor, reconcile, DesiredConfig, MonitorOutcome, MonitorPlan};

fn catalog() -> Vec<Mode> {
    vec![
        Mode { xid: 1, width: 1920, height: 1080, rate_mhz: 59_900 },
        Mode { xid: 2, width: 1920, height: 1080, rate_mhz: 60_000 },
        Mode { xid: 3, width: 1920, height: 1080, rate_mhz: 74_970 },
    ]
}

fn spec(refresh_rate_mhz: Option<u64>, x: i32) -> MonitorSpec {
    MonitorSpec { width: 1920, height: 1080, refresh_rate_mhz, primary: false, rotation: Rotation::Normal, x, y: 0 }
}

fn monitor(name: &str, current_mode: u64, outputs: usize) -> MonitorState {
    let o = OutputState {
        xid: 70,
        connected: true,
        current_mode: Some(current_mode),
        controller: Some(Controller { xid: 40, rotation: Rotation::Normal, x: 0, y: 0 }),
        primary: false,
    };
    MonitorState { name: String::from(name), outputs: vec![o; outputs] }
}

#[test]
fn config_insert_and_get() {
    let mut c = DesiredConfig::new();
    assert_eq!(c.get(&String::from("DP-1")), None);
    c.insert(String::from("DP-1"), spec(None, 0));
    c.insert(String::from("DP-2"), spec(None, 1920));
    assert_eq!(c.get(&String::from("DP-1")), Some(spec(None, 0)));
    assert_eq!(c.get(&String::from("DP-2")), Some(spec(None, 1920)));
    c.insert(String::from("DP-1"), spec(Some(60_000), 5));
    assert_eq!(c.get(&String::from("DP-1")), Some(spec(Some(60_000), 5)));
    assert_eq!(c.get(&String::from("HDMI-1")), None);
}

#[test]
fn plans_each_kind_of_monitor() {
    let mut c = DesiredConfig::new();
    c.insert(String::from("same"), spec(Some(60_000), 0));
    c.insert(String::from("moved"), spec(Some(60_000), 1920));
    c.insert(String::from("twin"), spec(None, 0));
    c.insert(String::from("ambiguous"), spec(Some(60_000), 0));
    let monitors = vec![
        monitor("same", 2, 1),
        monitor("moved", 1, 1),
        monitor("twin", 2, 2),
        monitor("ambiguous", 3, 1),
        monitor("stranger", 2, 1),
    ];
    let plans = reconcile(&c, &monitors, &catalog());
    assert_eq!(
        plans,
        vec![
            MonitorPlan::NoChange,
            MonitorPlan::Apply(Diff { primary: None, position: Some((1920, 0)), rotation: None, mode: None }),
            MonitorPlan::Skipped(DiffError::UnsupportedTopology),
            MonitorPlan::Skipped(DiffError::AmbiguousMode),
            MonitorPlan::Unconfigured,
        ]
    );
    for (m, p) in monitors.iter().zip(plans.iter()) {
        assert_eq!(plan_monitor(&c, m, &catalog()), *p);
    }
}

#[test]
fn end_to_end_ambiguous_example() {
    let mut c = DesiredConfig::new();
    c.insert(String::from("DP-1"), spec(Some(60_000), 0));
    assert_eq!(
        plan_monitor(&c, &monitor("DP-1", 3, 1), &catalog()),
        MonitorPlan::Skipped(DiffError::AmbiguousMode)
    );
}

#[test]
fn outcomes_follow_plans() {
    let err = ApplyError { attribute: Attribute::Mode };
    let d = Diff { primary: Some(true), position: None, rotation: None, mode: None };
    assert_eq!(MonitorPlan::Apply(d).outcome(Ok(())), MonitorOutcome::Applied);
    assert_eq!(MonitorPlan::Apply(d).outcome(Err(err)), MonitorOutcome::Failed(err));
    assert_eq!(MonitorPlan::NoChange.outcome(Err(err)), MonitorOutcome::NoChange);
    assert_eq!(MonitorPlan::Unconfigured.outcome(Ok(())), MonitorOutcome::Unconfigured);
    assert_eq!(
        MonitorPlan::Skipped(DiffError::NoController).outcome(Ok(())),
        MonitorOutcome::Skipped(DiffError::NoController)
    );
}
