use windmill_gallery::collision::{
    advance_bullet, find_first_hit, resolve_hit, Bullet, BulletEntry, Effect, Scores,
    WindmillEntry, WIN_SCORE,
};
use windmill_gallery::geometry::Vec3;
use windmill_gallery::windmill::{Entity, Windmill};
use windmill_gallery::world::{Camera, World, ROD_HEIGHT, SPREAD, WINDMILL_COUNT};

fn camera_at(x: i64, y: i64, z: i64, dir: (i64, i64, i64)) -> Camera {
    Camera { position: Vec3::new(x, y, z), forward: Vec3::new(dir.0, dir.1, dir.2) }
}

fn mill_at(id: u64, x: i64, y: i64, z: i64, state: usize) -> WindmillEntry {
    let mut windmill = Windmill::new([Entity(id + 1), Entity(id + 2), Entity(id + 3)]);
    for _ in 0..state {
        windmill.register_hit();
    }
    WindmillEntry { id: Entity(id), position: Vec3::new(x, y, z), windmill }
}

#[test]
fn bullet_closes_in_and_takes_first_fin() {
    let mut world = World::new();
    let rod = world.place_windmill(0, 0);
    assert_eq!(rod, Entity(3));
    let shot = world.spawn_bullet(&camera_at(0, 2_000_000, 5_000_000, (0, 0, -1000)));
    assert_eq!(shot.id, Entity(4));
    for n in 1..=8 {
        let effects = world.tick(100);
        assert!(effects.is_empty());
        assert_eq!(world.bullets[0].position, Vec3::new(0, 2_000_000, 5_000_000 - 500_000 * n));
    }
    let effects = world.tick(100);
    assert_eq!(effects, vec![Effect::FinDestroyed(Entity(0))]);
    assert_eq!(world.windmills.len(), 1);
    assert_eq!(world.windmills[0].windmill.state, 1);
    assert_eq!(world.windmills[0].windmill.fins, [None, Some(Entity(1)), Some(Entity(2))]);
    assert_eq!(world.bullets.len(), 1);
    assert_eq!(world.bullets[0].id, Entity(4));
    assert_eq!(world.bullets[0].bullet.dir, Vec3::new(0, 0, 1000));
    assert_eq!(world.bullets[0].position, Vec3::new(0, 2_000_000, 500_000));
    assert_eq!(world.scores.score, 0);
    let effects = world.tick(100);
    assert!(effects.is_empty());
    assert_eq!(world.bullets[0].position, Vec3::new(0, 2_000_000, 1_000_000));
}

#[test]
fn fourth_hit_destroys_windmill_and_scores() {
    let mut world = World::new();
    world.place_windmill(0, 0);
    let mut last = Vec::new();
    for round in 0..4usize {
        assert_eq!(world.windmills[0].windmill.state, round);
        let shot = world.spawn_bullet(&camera_at(0, 2_000_000, 5_000_000, (0, 0, -1000)));
        for _ in 0..8 {
            assert!(world.tick(100).is_empty());
        }
        last = world.tick(100);
        if round < 3 {
            assert_eq!(last, vec![Effect::FinDestroyed(Entity(round as u64))]);
            assert_eq!(world.windmills[0].windmill.state, round + 1);
            assert_eq!(world.scores.score, 0);
            assert_eq!(world.bullets.len(), round + 1);
        } else {
            assert_eq!(
                last,
                vec![
                    Effect::WindmillDestroyed(Entity(3)),
                    Effect::BulletDestroyed(shot.id),
                    Effect::ScoreChanged(1),
                ]
            );
        }
    }
    assert_eq!(last.len(), 3);
    assert!(world.windmills.is_empty());
    assert_eq!(world.scores.score, 1);
    assert_eq!(world.bullets.len(), 3);
    assert!(world.bullets.iter().all(|b| b.bullet.dir == Vec3::new(0, 0, 1000)));
}

#[test]
fn win_notice_comes_once_with_the_tenth_windmill() {
    let mut world = World::new();
    for i in 0..12 {
        world.place_windmill(2_000_000 * i - 11_000_000, 0);
    }
    let mut notices = 0;
    for i in 0..12 {
        world.spawn_bullet(&camera_at(2_000_000 * i - 11_000_000, 2_000_000, 0, (0, 0, -1000)));
        for hit in 0..4 {
            let effects = world.tick(0);
            let won = effects.iter().filter(|e| **e == Effect::Won).count();
            notices += won;
            if i == 9 && hit == 3 {
                assert_eq!(won, 1);
                assert_eq!(effects.last(), Some(&Effect::Won));
                assert_eq!(world.scores.score, WIN_SCORE);
            } else {
                assert_eq!(won, 0);
            }
        }
        assert_eq!(world.scores.score, (i + 1) as usize);
        assert!(world.bullets.is_empty());
    }
    assert_eq!(notices, 1);
    assert!(world.windmills.is_empty());
    assert_eq!(world.scores.score, 12);
}

#[test]
fn bullet_below_ground_is_destroyed() {
    let mut world = World::new();
    let shot = world.spawn_bullet(&camera_at(0, 1_000, 0, (0, -1000, 0)));
    let effects = world.tick(1);
    assert_eq!(effects, vec![Effect::BulletDestroyed(shot.id)]);
    assert!(world.bullets.is_empty());
}

#[test]
fn bullet_on_the_ground_stays() {
    let mut world = World::new();
    world.spawn_bullet(&camera_at(0, 5_000, 0, (0, -1000, 0)));
    let effects = world.tick(1);
    assert!(effects.is_empty());
    assert_eq!(world.bullets[0].position, Vec3::new(0, 0, 0));
}

#[test]
fn bullet_leaves_play_area_along_x_and_z() {
    let mut world = World::new();
    let a = world.spawn_bullet(&camera_at(24_999_000, 10, 0, (1000, 0, 0)));
    let b = world.spawn_bullet(&camera_at(0, 10, -24_999_000, (0, 0, -1000)));
    let c = world.spawn_bullet(&camera_at(-24_995_000, 10, 0, (-1000, 0, 0)));
    let effects = world.tick(1);
    assert_eq!(effects, vec![Effect::BulletDestroyed(a.id), Effect::BulletDestroyed(b.id)]);
    assert_eq!(world.bullets.len(), 1);
    assert_eq!(world.bullets[0].id, c.id);
    assert_eq!(world.bullets[0].position, Vec3::new(-25_000_000, 10, 0));
    assert!(!world.bullets[0].position.out_of_bounds());
}

#[test]
fn surviving_bullets_are_in_bounds() {
    let mut world = World::new();
    for i in 0..20i64 {
        world.spawn_bullet(&camera_at(i * 2_600_000 - 26_000_000, 100_000 * i, 0, (700, -700, 100)));
    }
    for _ in 0..50 {
        world.tick(33);
        for b in world.bullets.iter() {
            assert!(b.position.y >= 0);
            assert!(b.position.x.abs() <= 25_000_000);
            assert!(b.position.z.abs() <= 25_000_000);
        }
    }
}

#[test]
fn out_of_bounds_bullet_does_not_hit() {
    let mut world = World::new();
    world.place_windmill(25_500_000, 0);
    let shot = world.spawn_bullet(&camera_at(24_900_000, 2_000_000, 0, (1000, 0, 0)));
    let effects = world.tick(100);
    assert_eq!(effects, vec![Effect::BulletDestroyed(shot.id)]);
    assert_eq!(world.windmills[0].windmill.state, 0);
}

#[test]
fn first_windmill_in_store_order_is_hit() {
    let mills = vec![
        mill_at(10, 5_000_000, 0, 0, 0),
        mill_at(20, 500_000, 0, 0, 0),
        mill_at(30, 0, 0, 0, 0),
    ];
    assert_eq!(find_first_hit(&Vec3::new(0, 0, 0), &mills), Some(1));
    assert_eq!(find_first_hit(&Vec3::new(4_500_000, 0, 0), &mills), Some(0));
    assert_eq!(find_first_hit(&Vec3::new(-900_000, 0, 0), &mills), Some(2));
    assert_eq!(find_first_hit(&Vec3::new(0, 3_000_000, 0), &mills), None);
    assert_eq!(find_first_hit(&Vec3::new(0, 0, 0), &Vec::new()), None);
}

#[test]
fn bullet_hits_only_one_windmill_per_tick() {
    let mut world = World::new();
    world.place_windmill(0, 0);
    world.place_windmill(100, 0);
    world.spawn_bullet(&camera_at(0, 2_000_000, 0, (0, 0, -1000)));
    let effects = world.tick(0);
    assert_eq!(effects, vec![Effect::FinDestroyed(Entity(0))]);
    assert_eq!(world.windmills[0].windmill.state, 1);
    assert_eq!(world.windmills[1].windmill.state, 0);
}

#[test]
fn resolve_hit_on_intact_windmill() {
    let mut mills = vec![mill_at(10, 0, 0, 0, 0)];
    let mut scores = Scores { score: 0 };
    let mut survivors = Vec::new();
    let mut effects = Vec::new();
    let b = BulletEntry {
        id: Entity(99),
        position: Vec3::new(1, 2, 0),
        bullet: Bullet { dir: Vec3::new(600, 0, -800) },
    };
    resolve_hit(b, 0, &mut mills, &mut scores, &mut survivors, &mut effects);
    assert_eq!(effects, vec![Effect::FinDestroyed(Entity(11))]);
    assert_eq!(mills.len(), 1);
    assert_eq!(mills[0].windmill.state, 1);
    assert_eq!(mills[0].windmill.fins, [None, Some(Entity(12)), Some(Entity(13))]);
    assert_eq!(scores.score, 0);
    assert_eq!(
        survivors,
        vec![BulletEntry {
            id: Entity(99),
            position: Vec3::new(1, 2, 0),
            bullet: Bullet { dir: Vec3::new(-600, 0, 800) },
        }]
    );
}

#[test]
fn resolve_hit_on_bare_windmill() {
    let mut mills = vec![mill_at(10, 0, 0, 0, 0), mill_at(20, 0, 0, 0, 3), mill_at(30, 0, 0, 0, 1)];
    let mut scores = Scores { score: 8 };
    let mut survivors = Vec::new();
    let mut effects = Vec::new();
    let b = BulletEntry {
        id: Entity(99),
        position: Vec3::new(0, 0, 0),
        bullet: Bullet { dir: Vec3::new(0, 0, -1000) },
    };
    resolve_hit(b, 1, &mut mills, &mut scores, &mut survivors, &mut effects);
    assert_eq!(
        effects,
        vec![
            Effect::WindmillDestroyed(Entity(20)),
            Effect::BulletDestroyed(Entity(99)),
            Effect::ScoreChanged(9),
        ]
    );
    assert_eq!(scores.score, 9);
    assert!(survivors.is_empty());
    assert_eq!(mills.len(), 2);
    assert_eq!(mills[0].id, Entity(10));
    assert_eq!(mills[1].id, Entity(30));
}

#[test]
fn resolve_hit_reaching_winning_score() {
    let mut mills = vec![mill_at(20, 0, 0, 0, 3)];
    let mut scores = Scores { score: 9 };
    let mut survivors = Vec::new();
    let mut effects = Vec::new();
    let b = BulletEntry {
        id: Entity(7),
        position: Vec3::new(0, 0, 0),
        bullet: Bullet { dir: Vec3::new(0, 0, -1000) },
    };
    resolve_hit(b, 0, &mut mills, &mut scores, &mut survivors, &mut effects);
    assert_eq!(
        effects,
        vec![
            Effect::WindmillDestroyed(Entity(20)),
            Effect::BulletDestroyed(Entity(7)),
            Effect::ScoreChanged(10),
            Effect::Won,
        ]
    );
}

#[test]
fn advance_bullet_moves_a_free_bullet() {
    let mut mills = vec![mill_at(10, 0, 0, 0, 0)];
    let mut scores = Scores { score: 0 };
    let mut survivors = Vec::new();
    let mut effects = Vec::new();
    let b = BulletEntry {
        id: Entity(7),
        position: Vec3::new(10_000_000, 1_000_000, 0),
        bullet: Bullet { dir: Vec3::new(-600, 800, 0) },
    };
    advance_bullet(b, 16, &mut mills, &mut scores, &mut survivors, &mut effects);
    assert!(effects.is_empty());
    assert_eq!(survivors.len(), 1);
    assert_eq!(survivors[0].position, Vec3::new(10_000_000 - 48_000, 1_000_000 + 64_000, 0));
    assert_eq!(survivors[0].bullet.dir, Vec3::new(-600, 800, 0));
    assert_eq!(mills[0].windmill.state, 0);
}

#[test]
fn setup_places_ten_intact_windmills() {
    let world = World::setup();
    assert!(world.is_well_formed());
    assert_eq!(world.windmills.len(), WINDMILL_COUNT);
    assert!(world.bullets.is_empty());
    assert_eq!(world.scores.score, 0);
    assert_eq!(world.next_entity, 40);
    for (i, m) in world.windmills.iter().enumerate() {
        let first = 4 * i as u64;
        assert_eq!(m.id, Entity(first + 3));
        assert_eq!(m.windmill.state, 0);
        assert_eq!(
            m.windmill.fins,
            [Some(Entity(first)), Some(Entity(first + 1)), Some(Entity(first + 2))]
        );
        assert_eq!(m.position.y, ROD_HEIGHT);
        assert!(-SPREAD <= m.position.x && m.position.x < SPREAD);
        assert!(-SPREAD <= m.position.z && m.position.z < SPREAD);
    }
}

#[test]
fn setup_spreads_the_windmills() {
    let world = World::setup();
    let first = world.windmills[0].position;
    assert!(world.windmills.iter().any(|m| m.position.x != first.x || m.position.z != first.z));
    assert!(world.windmills.iter().any(|m| m.position.x != -SPREAD || m.position.z != -SPREAD));
    assert!(world.windmills.iter().any(|m| m.position.x != m.position.z));
}

#[test]
fn world_with_a_broken_windmill_is_not_well_formed() {
    let mut world = World::new();
    world.place_windmill(0, 0);
    assert!(world.is_well_formed());
    world.windmills[0].windmill.state = 2;
    assert!(!world.is_well_formed());
    world.windmills[0].windmill.state = 0;
    assert!(world.is_well_formed());
    world.windmills[0].windmill.fins[2] = Some(Entity(4));
    assert!(!world.is_well_formed());
    world.windmills[0].windmill.fins[2] = Some(Entity(2));
    world.bullets.push(BulletEntry {
        id: Entity(4),
        position: Vec3::new(0, 0, 0),
        bullet: Bullet { dir: Vec3::new(0, 0, 1000) },
    });
    assert!(!world.is_well_formed());
    world.next_entity = 5;
    assert!(world.is_well_formed());
    world.bullets.push(BulletEntry {
        id: Entity(3),
        position: Vec3::new(0, 0, 0),
        bullet: Bullet { dir: Vec3::new(0, 0, 1001) },
    });
    assert!(!world.is_well_formed());
}

#[test]
fn spawned_entities_get_new_identities() {
    let mut world = World::new();
    let mut seen = Vec::new();
    for i in 0..3 {
        let rod = world.place_windmill(2_000_000 * i, 0);
        seen.push(rod.0);
        for fin in world.windmills[i as usize].windmill.fins.iter().flatten() {
            seen.push(fin.0);
        }
        let shot = world.spawn_bullet(&camera_at(0, 0, 0, (0, 1000, 0)));
        seen.push(shot.id.0);
        world.tick(10);
        assert!(world.is_well_formed());
    }
    assert_eq!(seen.len(), 15);
    let mut sorted = seen.clone();
    sorted.sort();
    sorted.dedup();
    assert_eq!(sorted, (0..15).collect::<Vec<u64>>());
    assert_eq!(world.next_entity, 15);
}
