use missile_sim::scenario::{ScenarioBuilder, ScenarioError};

#[derive(Debug, Clone, Copy, PartialEq)]
struct Timing {
    dt: f64,
    total_time: f64,
    hit_threshold: f64,
}

const TIMING: Timing = Timing {
    dt: 0.01,
    total_time: 60.0,
    hit_threshold: 5.0,
};

#[test]
fn build_with_both_configs() {
    let s = ScenarioBuilder::new("Head-On", TIMING)
        .missile_config([0.0, 0.0, 0.0])
        .target_config([1000.0, 0.0, 0.0])
        .build()
        .unwrap();
    assert_eq!(s.name, "Head-On");
    assert_eq!(s.missile_config, [0.0, 0.0, 0.0]);
    assert_eq!(s.target_config, [1000.0, 0.0, 0.0]);
    assert_eq!(s.timing, TIMING);
}

#[test]
fn build_without_missile_fails() {
    let r = ScenarioBuilder::<u8, u8, Timing>::new("x", TIMING)
        .target_config(1)
        .build();
    assert_eq!(r.unwrap_err(), ScenarioError::MissingMissileConfig);
}

#[test]
fn build_without_target_fails() {
    let r = ScenarioBuilder::<u8, u8, Timing>::new("x", TIMING)
        .missile_config(1)
        .build();
    assert_eq!(r.unwrap_err(), ScenarioError::MissingTargetConfig);
}

#[test]
fn missile_is_checked_first() {
    let r = ScenarioBuilder::<u8, u8, Timing>::new("x", TIMING).build();
    assert_eq!(r.unwrap_err(), ScenarioError::MissingMissileConfig);
}

#[test]
fn later_settings_replace_earlier_ones() {
    let t2 = Timing {
        dt: 0.001,
        ..TIMING
    };
    let s = ScenarioBuilder::new("x", TIMING)
        .missile_config(1u8)
        .missile_config(2u8)
        .target_config(3u8)
        .timing(t2)
        .build()
        .unwrap();
    assert_eq!(s.missile_config, 2);
    assert_eq!(s.target_config, 3);
    assert_eq!(s.timing, t2);
}

#[test]
fn a_builder_can_be_reused() {
    let b = ScenarioBuilder::new("replay", TIMING)
        .missile_config(7u8)
        .target_config(9u8);
    let first = b.clone().build().unwrap();
    let second = b.build().unwrap();
    assert_eq!(first.name, second.name);
    assert_eq!(first.missile_config, second.missile_config);
}

#[test]
fn error_messages() {
    assert_eq!(
        ScenarioError::MissingMissileConfig.message(),
        "missile_config is required"
    );
    assert_eq!(
        ScenarioError::MissingTargetConfig.message(),
        "target_config is required"
    );
}
