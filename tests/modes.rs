use randrd::model::{Mode, MonitorSpec, Rotation};

fn mode(xid: u64, width: u32, height: u32, rate_mhz: u64) -> Mode {
    Mode { xid, width, height, rate_mhz }
}

fn spec(width: u32, height: u32, refresh_rate_mhz: Option<u64>) -> MonitorSpec {
    MonitorSpec { width, height, refresh_rate_mhz, primary: false, rotation: Rotation::Normal, x: 0, y: 0 }
}

fn sample_catalog() -> Vec<Mode> {
    vec![
        mode(1, 1920, 1080, 59_900),
        mode(2, 1920, 1080, 60_000),
        mode(3, 1920, 1080, 74_970),
    ]
}

#[test]
fn any_rate_keeps_every_mode_of_the_resolution() {
    let catalog = vec![
        mode(1, 1920, 1080, 30_000),
        mode(2, 2560, 1440, 60_000),
        mode(3, 1920, 1080, 144_000),
        mode(4, 1080, 1920, 60_000),
    ];
    let got = spec(1920, 1080, None).compatible_modes(&catalog);
    assert_eq!(got, vec![catalog[0], catalog[2]]);
}

#[test]
fn no_matching_resolution_gives_empty() {
    let got = spec(3840, 2160, None).compatible_modes(&sample_catalog());
    assert!(got.is_empty());
    assert!(spec(1920, 1080, None).compatible_modes(&[]).is_empty());
}

#[test]
fn requested_rate_keeps_near_modes_in_catalog_order() {
    let catalog = sample_catalog();
    let got = spec(1920, 1080, Some(60_000)).compatible_modes(&catalog);
    assert_eq!(got, vec![catalog[0], catalog[1]]);
}

#[test]
fn requested_rate_between_modes_keeps_both() {
    let catalog = sample_catalog();
    let got = spec(1920, 1080, Some(60_040)).compatible_modes(&catalog);
    assert_eq!(got, vec![catalog[0], catalog[1]]);
}

#[test]
fn tolerance_boundary_is_exclusive() {
    let catalog = vec![
        mode(1, 1920, 1080, 58_900),
        mode(2, 1920, 1080, 60_000),
        mode(3, 1920, 1080, 59_000),
        mode(4, 1920, 1080, 59_001),
        mode(5, 1920, 1080, 61_000),
        mode(6, 1920, 1080, 60_999),
    ];
    let got = spec(1920, 1080, Some(60_000)).compatible_modes(&catalog);
    assert_eq!(got, vec![catalog[1], catalog[3], catalog[5]]);
}

#[test]
fn exact_rate_is_always_kept() {
    let catalog = vec![mode(9, 800, 600, 0), mode(10, 800, 600, u64::MAX)];
    assert_eq!(spec(800, 600, Some(0)).compatible_modes(&catalog), vec![catalog[0]]);
    assert_eq!(spec(800, 600, Some(u64::MAX)).compatible_modes(&catalog), vec![catalog[1]]);
}

#[test]
fn accepts_checks_resolution_and_rate() {
    let s = spec(1920, 1080, Some(60_000));
    assert!(s.accepts(&mode(1, 1920, 1080, 60_500)));
    assert!(!s.accepts(&mode(1, 1920, 1200, 60_000)));
    assert!(!s.accepts(&mode(1, 1920, 1080, 61_000)));
}
