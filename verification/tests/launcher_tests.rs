use pinball_core::launcher::{
    launcher_at_rest, LAUNCHER_BOOST_PER_MILLI, LAUNCHER_MAX_PULL_MILLI, LAUNCHER_PULL_STEP_MILLI,
};

#[test]
fn displacement_never_exceeds_the_maximum_pull() {
    // However long the charge input is held, the displacement clamps at the
    // configured maximum: 10 per tick against a bound of 80.
    let mut l = launcher_at_rest();
    for tick in 1..=20u64 {
        l.tick(true);
        let expected = (tick * LAUNCHER_PULL_STEP_MILLI).min(LAUNCHER_MAX_PULL_MILLI);
        assert_eq!(l.displacement_milli, expected);
        assert!(l.displacement_milli <= LAUNCHER_MAX_PULL_MILLI);
    }
    assert_eq!(l.displacement_milli, LAUNCHER_MAX_PULL_MILLI);
}

#[test]
fn release_converts_displacement_into_one_boost() {
    let mut l = launcher_at_rest();
    for _ in 0..3 {
        assert_eq!(l.tick(true), None);
    }
    assert_eq!(l.displacement_milli, 30);
    let boost = l.tick(false);
    assert_eq!(boost, Some(30 * LAUNCHER_BOOST_PER_MILLI));
    assert_eq!(l.displacement_milli, 0);
    assert!(!l.charging);
    // The release edge has passed: repeating the released input boosts
    // nothing further.
    assert_eq!(l.tick(false), None);
}

#[test]
fn release_from_full_pull_boosts_at_full_strength() {
    let mut l = launcher_at_rest();
    for _ in 0..30 {
        l.tick(true);
    }
    assert_eq!(
        l.tick(false),
        Some(LAUNCHER_MAX_PULL_MILLI * LAUNCHER_BOOST_PER_MILLI)
    );
}

#[test]
fn idle_launcher_stays_at_rest() {
    let mut l = launcher_at_rest();
    for _ in 0..5 {
        assert_eq!(l.tick(false), None);
        assert_eq!(l.displacement_milli, 0);
        assert!(!l.charging);
    }
}

#[test]
fn holding_at_the_limit_changes_nothing() {
    let mut l = launcher_at_rest();
    for _ in 0..8 {
        l.tick(true);
    }
    assert_eq!(l.displacement_milli, LAUNCHER_MAX_PULL_MILLI);
    let before = l;
    assert_eq!(l.tick(true), None);
    assert_eq!(l, before);
}
