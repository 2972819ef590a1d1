use windmill_gallery::animator::{fin_phase, fin_poses, FinPose, WindmillFin, THIRD_TURN};
use windmill_gallery::collision::WindmillEntry;
use windmill_gallery::geometry::{add_clamped, Vec3};
use windmill_gallery::windmill::{Entity, HitOutcome, Windmill};

#[test]
fn windmill_loses_fins_in_order() {
    let mut w = Windmill::new([Entity(7), Entity(8), Entity(9)]);
    assert_eq!(w.state, 0);
    assert_eq!(w.fins, [Some(Entity(7)), Some(Entity(8)), Some(Entity(9))]);
    assert!(w.is_well_formed());
    assert_eq!(w.register_hit(), HitOutcome::FinDestroyed(Entity(7)));
    assert_eq!(w.state, 1);
    assert_eq!(w.fins, [None, Some(Entity(8)), Some(Entity(9))]);
    assert_eq!(w.register_hit(), HitOutcome::FinDestroyed(Entity(8)));
    assert_eq!(w.state, 2);
    assert_eq!(w.fins, [None, None, Some(Entity(9))]);
    assert_eq!(w.register_hit(), HitOutcome::FinDestroyed(Entity(9)));
    assert_eq!(w.state, 3);
    assert_eq!(w.fins, [None, None, None]);
    assert!(w.is_well_formed());
    assert_eq!(w.register_hit(), HitOutcome::WindmillDestroyed);
    assert_eq!(w.state, 3);
    assert_eq!(w.fins, [None, None, None]);
}

#[test]
fn fins_left_match_state() {
    let mut w = Windmill::new([Entity(1), Entity(2), Entity(3)]);
    for lost in 0..=3usize {
        assert_eq!(w.state, lost);
        assert_eq!(w.fins.iter().filter(|f| f.is_some()).count(), 3 - lost);
        w.register_hit();
    }
}

#[test]
fn windmill_out_of_order_is_not_well_formed() {
    let w = Windmill { state: 1, fins: [Some(Entity(1)), None, Some(Entity(3))] };
    assert!(!w.is_well_formed());
    let w = Windmill { state: 4, fins: [None, None, None] };
    assert!(!w.is_well_formed());
    let w = Windmill { state: 2, fins: [None, None, Some(Entity(3))] };
    assert!(w.is_well_formed());
}

#[test]
fn advanced_moves_five_units_per_second() {
    let p = Vec3::new(0, 2_000_000, 5_000_000);
    assert_eq!(p.advanced(&Vec3::new(0, 0, -1000), 1000), Vec3::new(0, 2_000_000, 0));
    assert_eq!(p.advanced(&Vec3::new(1000, -500, 0), 16), Vec3::new(80_000, 1_960_000, 5_000_000));
    assert_eq!(p.advanced(&Vec3::new(1000, 1000, 1000), 0), p);
}

#[test]
fn advanced_stops_at_the_end_of_the_range() {
    let p = Vec3::new(i64::MIN + 10, i64::MAX - 10, 0);
    let q = p.advanced(&Vec3::new(-1000, 1000, 1), u32::MAX);
    assert_eq!(q, Vec3::new(i64::MIN, i64::MAX, 5 * (u32::MAX as i64)));
    assert_eq!(add_clamped(i64::MAX, 1), i64::MAX);
    assert_eq!(add_clamped(i64::MIN, -1), i64::MIN);
    assert_eq!(add_clamped(-5, 7), 2);
}

#[test]
fn reversed_negates_each_component() {
    assert_eq!(Vec3::new(0, 0, -1000).reversed(), Vec3::new(0, 0, 1000));
    assert_eq!(Vec3::new(600, -800, 0).reversed(), Vec3::new(-600, 800, 0));
}

#[test]
fn direction_components_are_bounded() {
    assert!(Vec3::new(1000, -1000, 0).is_direction());
    assert!(!Vec3::new(1001, 0, 0).is_direction());
    assert!(!Vec3::new(0, -1001, 0).is_direction());
    assert!(!Vec3::new(0, 0, 5000).is_direction());
}

#[test]
fn bounds_are_inclusive_at_the_edge() {
    assert!(!Vec3::new(25_000_000, 0, -25_000_000).out_of_bounds());
    assert!(Vec3::new(25_000_001, 0, 0).out_of_bounds());
    assert!(Vec3::new(-25_000_001, 0, 0).out_of_bounds());
    assert!(Vec3::new(0, 0, 25_000_001).out_of_bounds());
    assert!(Vec3::new(0, 0, -25_000_001).out_of_bounds());
    assert!(Vec3::new(0, -1, 0).out_of_bounds());
    assert!(!Vec3::new(0, i64::MAX, 0).out_of_bounds());
}

#[test]
fn hit_box_is_strict() {
    let t = Vec3::new(0, 2_000_000, 0);
    assert!(Vec3::new(999_999, 2_000_000, 0).within_hit_box(&t));
    assert!(!Vec3::new(1_000_000, 2_000_000, 0).within_hit_box(&t));
    assert!(Vec3::new(0, 4_999_999, 0).within_hit_box(&t));
    assert!(!Vec3::new(0, 5_000_000, 0).within_hit_box(&t));
    assert!(Vec3::new(0, -999_999, -999_999).within_hit_box(&t));
    assert!(!Vec3::new(0, 2_000_000, -1_000_000).within_hit_box(&t));
    assert!(!Vec3::new(i64::MAX, 0, 0).within_hit_box(&Vec3::new(i64::MIN, 0, 0)));
}

#[test]
fn phases_are_a_third_turn_apart() {
    assert_eq!(fin_phase(0, &WindmillFin { index: 0 }), 0);
    assert_eq!(fin_phase(0, &WindmillFin { index: 1 }), 2_094_395);
    assert_eq!(fin_phase(0, &WindmillFin { index: 2 }), 4_188_790);
    assert_eq!(fin_phase(1500, &WindmillFin { index: 0 }), 1_500_000);
    for t in [0u64, 17, 1000, u64::MAX] {
        let a = fin_phase(t, &WindmillFin { index: 0 });
        let b = fin_phase(t, &WindmillFin { index: 1 });
        let c = fin_phase(t, &WindmillFin { index: 2 });
        assert_eq!(b - a, THIRD_TURN);
        assert_eq!(c - b, THIRD_TURN);
    }
}

#[test]
fn poses_pass_over_empty_slots() {
    let mut damaged = Windmill::new([Entity(4), Entity(5), Entity(6)]);
    damaged.register_hit();
    let mut bare = Windmill::new([Entity(8), Entity(9), Entity(10)]);
    for _ in 0..3 {
        bare.register_hit();
    }
    let mills = vec![
        WindmillEntry {
            id: Entity(3),
            position: Vec3::new(1, 2_000_000, 3),
            windmill: Windmill::new([Entity(0), Entity(1), Entity(2)]),
        },
        WindmillEntry { id: Entity(11), position: Vec3::new(0, 0, 0), windmill: bare },
        WindmillEntry { id: Entity(7), position: Vec3::new(-5, 2_000_000, 9), windmill: damaged },
    ];
    let poses = fin_poses(&mills, 2000);
    let hub_a = Vec3::new(1, 4_500_000, 3);
    let hub_b = Vec3::new(-5, 4_500_000, 9);
    assert_eq!(
        poses,
        vec![
            FinPose { fin: Entity(0), hub: hub_a, phase: 2_000_000 },
            FinPose { fin: Entity(1), hub: hub_a, phase: 4_094_395 },
            FinPose { fin: Entity(2), hub: hub_a, phase: 6_188_790 },
            FinPose { fin: Entity(5), hub: hub_b, phase: 4_094_395 },
            FinPose { fin: Entity(6), hub: hub_b, phase: 6_188_790 },
        ]
    );
}
