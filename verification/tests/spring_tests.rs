use fabric_ui::spring::Spring;
use fabric_ui::spring::Spring2D;

#[test]
fn a_new_spring_rests_on_its_target() {
    let mut s = Spring::new(2_000, 0);
    assert!(s.arrived(0));
    assert_eq!(s.position(0), 2_000);
    assert_eq!(s.velocity(0), 0);
}

#[test]
fn set_target_never_teleports_the_body() {
    // Sampling immediately before and after a set_target call yields the
    // same position, whatever the call sequence before it.
    let mut s = Spring::new(0, 0);
    s.set_target(10_000, 0);
    let before = s.position(500);
    s.set_target(-4_000, 500);
    let after = s.position(500);
    assert_eq!(before, after);
    // And again mid-flight toward the new target.
    let b2 = s.position(700);
    s.set_target(25_000, 700);
    let a2 = s.position(700);
    assert_eq!(b2, a2);
}

#[test]
fn a_damped_spring_converges_onto_its_target() {
    // Damper 1.0 (and above): after long enough, arrived() holds and the
    // position rounds to the target exactly.
    let mut s = Spring::new(0, 0);
    s.set_target(5_000, 0);
    assert!(!s.arrived(0));
    assert!(s.arrived(20_000));
    assert_eq!(s.position(20_000), 5_000);
    assert_eq!(s.velocity(20_000), 0);

    let mut over = Spring::new(1_000, 0);
    over.set_damper(3_000, 0);
    over.set_target(-2_500, 0);
    assert!(over.arrived(50_000));
    // -2.5 rounds away from zero.
    assert_eq!(over.position_rounded(50_000), -3);
}

#[test]
fn zero_speed_freezes_motion() {
    let mut s = Spring::new(1_234, 0);
    s.set_target(9_000, 0);
    s.set_speed(0, 0);
    let p = s.position(0);
    assert_eq!(s.position(100_000), p);
    assert_eq!(s.velocity(100_000), 0);
}

#[test]
fn an_underdamped_spring_moves_but_stays_finite() {
    let mut s = Spring::new(0, 0);
    s.set_damper(200, 0);
    s.set_target(1_000, 0);
    let p = s.position(400);
    assert!(p != 0);
    assert!(p.abs() < 10_000_000);
}

#[test]
fn setters_resample_before_applying() {
    // set_position keeps the sampled velocity; set_velocity keeps the
    // sampled position.
    let mut s = Spring::new(0, 0);
    s.set_target(10_000, 0);
    let p = {
        let mut probe = s;
        probe.position(300)
    };
    s.set_velocity(0, 300);
    assert_eq!(s.position, p);
}

#[test]
fn a_pair_of_springs_arrives_only_when_both_do() {
    let mut s = Spring2D::new((0, 0), 0);
    s.set_target((3_000, -3_000), 0);
    assert!(!s.arrived(0));
    assert!(s.arrived(20_000));
    let (px, py) = s.position(20_000);
    assert_eq!((px, py), (3_000, -3_000));
    assert_eq!(s.target(), (3_000, -3_000));
    assert_eq!(s.damper(), 1_000);
    assert_eq!(s.speed(), 1_000);
}

#[test]
fn shared_setters_drive_both_axes() {
    let mut s = Spring2D::new((100, 200), 0);
    s.set_damper(2_000, 0);
    s.set_speed(500, 0);
    assert_eq!(s.damper(), 2_000);
    assert_eq!(s.speed(), 500);
    let (px, py) = s.position_rounded(0);
    assert_eq!((px, py), (0, 0));
}

#[test]
fn damped_motion_is_monotone_and_never_overshoots() {
    // Critically damped, at rest, pulled a long way: millisecond by
    // millisecond the sampled position stays inside [start, target] and only
    // ever moves toward the target — exactly, with no tolerance.
    let mut s = Spring::new(0, 0);
    s.set_target(1_000_000, 0);
    let mut prev = s.sample(0).0;
    assert_eq!(prev, 0);
    let mut t: u64 = 0;
    while t <= 20_000 {
        let p = s.sample(t).0;
        assert!(p >= prev);
        assert!(0 <= p && p <= 1_000_000);
        prev = p;
        t += 1;
    }
    assert_eq!(s.sample(20_000).0, 1_000_000);

    // And symmetrically when pulled downward.
    let mut down = Spring::new(500_000, 0);
    down.set_target(-250_000, 0);
    let mut prev_d = down.sample(0).0;
    assert_eq!(prev_d, 500_000);
    let mut t2: u64 = 0;
    while t2 <= 20_000 {
        let p = down.sample(t2).0;
        assert!(p <= prev_d);
        assert!(-250_000 <= p && p <= 500_000);
        prev_d = p;
        t2 += 1;
    }
    assert_eq!(down.sample(20_000).0, -250_000);
}
