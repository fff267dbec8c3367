use tower_targeting::attack_timer::AttackTimer;
use tower_targeting::geometry::{Direction, EnemySnapshot, Point};
use tower_targeting::targeting_priority::{select, TargetingPriority};
use tower_targeting::tower::{floor_third, Shot, Tower};
use tower_targeting::tower_type::{ProjectileSpawnRequest, TowerType, SECOND};

const TENTH: u64 = SECOND / 10;

fn enemy(x: i32, y: i32) -> EnemySnapshot {
    EnemySnapshot { position: Point::new(x, y, 0), health: 10, distance_travelled: 0 }
}

fn tower_at_origin_offset(range: i32) -> Tower {
    Tower::new(Point::new(0, 0, 0), 3, AttackTimer::new(SECOND), range, 100)
}

#[test]
fn sell_price_is_a_third_rounded_down() {
    let t = Tower::new(Point::new(20, 0, 0), 1, AttackTimer::new(SECOND), 10, 100);
    assert_eq!(t.sell_price, 33);
    assert_eq!(t.sell_price(), 33);
    assert_eq!(floor_third(99), 33);
    assert_eq!(floor_third(0), 0);
    assert_eq!(floor_third(-1), -1);
    assert_eq!(floor_third(-100), -34);
    assert_eq!(floor_third(i32::MIN), -715827883);
    assert_eq!(floor_third(i32::MAX), 715827882);
}

#[test]
fn new_tower_defaults() {
    let t = tower_at_origin_offset(10);
    assert_eq!(t.target, TargetingPriority::CLOSE);
    assert!(!t.first_enemy_appeared);
    assert_eq!(t.attack_speed.elapsed, 0);
    assert_eq!(t.damage, 3);
    assert_eq!(t.range, 10);
}

#[test]
fn idle_tower_never_fires_and_timer_stays_reset() {
    let mut t = tower_at_origin_offset(10);
    let far_away = vec![enemy(500, 0)];
    for _ in 0..20 {
        assert_eq!(t.update(TowerType::Fire, Point::new(0, 0, 0), &far_away, TENTH), None);
        assert_eq!(t.attack_speed.elapsed, 0);
        assert!(!t.attack_speed.ready());
    }
    assert_eq!(t.update(TowerType::Fire, Point::new(0, 0, 0), &Vec::new(), 7 * SECOND), None);
    assert_eq!(t.attack_speed.elapsed, 0);
}

#[test]
fn fires_on_first_sight_after_idle_ticks() {
    let mut t = tower_at_origin_offset(10);
    let here = Point::new(0, 0, 0);
    for _ in 0..5 {
        assert_eq!(t.update(TowerType::Ice, here, &Vec::new(), TENTH), None);
    }
    let shot = t.update(TowerType::Ice, here, &vec![enemy(4, 3)], TENTH);
    assert!(shot.is_some());
    assert_eq!(shot.unwrap().projectile.direction, Direction { x: 4, y: 3, z: 0 });
    assert!(!t.first_enemy_appeared);
    assert_eq!(t.attack_speed.elapsed, TENTH);
    // The next shot waits for the interval to run out.
    for _ in 0..9 {
        assert_eq!(t.update(TowerType::Ice, here, &vec![enemy(4, 3)], TENTH), None);
    }
    assert!(t.update(TowerType::Ice, here, &vec![enemy(4, 3)], TENTH).is_some());
}

#[test]
fn fresh_tower_waits_for_its_timer() {
    let mut t = tower_at_origin_offset(10);
    let here = Point::new(0, 0, 0);
    assert_eq!(t.update(TowerType::Dark, here, &vec![enemy(1, 1)], SECOND / 2), None);
    assert_eq!(t.update(TowerType::Dark, here, &vec![enemy(1, 1)], SECOND / 2), None);
    assert!(t.attack_speed.ready());
    assert!(t.update(TowerType::Dark, here, &vec![enemy(1, 1)], SECOND / 2).is_some());
}

#[test]
fn end_to_end_closest_flips_when_target_leaves() {
    let origin = Point::new(0, 0, 0);
    let near = enemy(5, 0);
    let mid = enemy(0, 8);
    assert_eq!(select(&vec![near, mid], origin, 10, TargetingPriority::CLOSE), Some(Direction { x: 5, y: 0, z: 0 }));
    let moved = enemy(15, 0);
    assert_eq!(select(&vec![moved, mid], origin, 10, TargetingPriority::CLOSE), Some(Direction { x: 0, y: 8, z: 0 }));

    let mut t = tower_at_origin_offset(10);
    assert_eq!(t.update(TowerType::Nature, origin, &Vec::new(), TENTH), None);
    let first = t.update(TowerType::Nature, origin, &vec![near, mid], SECOND).unwrap();
    assert_eq!(first.projectile.direction, Direction { x: 5, y: 0, z: 0 });
    let second = t.update(TowerType::Nature, origin, &vec![moved, mid], TENTH).unwrap();
    assert_eq!(second.projectile.direction, Direction { x: 0, y: 8, z: 0 });
}

#[test]
fn shot_carries_catalog_projectile_and_spawn_point() {
    let mut t = TowerType::Mage.get_tower();
    let position = Point::new(100, 50, 0);
    t.first_enemy_appeared = true;
    let shot = t.update(TowerType::Mage, position, &vec![enemy(125, 44)], TENTH).unwrap();
    assert_eq!(
        shot,
        Shot {
            projectile: ProjectileSpawnRequest {
                damage: 1,
                position: Point::new(120, 50, 0),
                direction: Direction { x: 5, y: -6, z: 0 },
                speed: 1500,
                lifetime: 2 * SECOND,
            },
            flip_angle: true,
        }
    );
}

#[test]
fn range_is_measured_from_the_spawn_point() {
    let mut t = TowerType::Fire.get_tower();
    t.first_enemy_appeared = true;
    // 25 units from the tower, 5 from its spawn point.
    let shot = t.update(TowerType::Fire, Point::new(0, 0, 0), &vec![enemy(25, 0)], TENTH);
    assert!(shot.is_some());
    t.first_enemy_appeared = true;
    // 5 units from the tower, 15 from its spawn point.
    assert_eq!(t.update(TowerType::Fire, Point::new(0, 0, 0), &vec![enemy(5, 0)], TENTH), None);
}

#[test]
fn aim_flips_only_for_targets_below_the_tower() {
    let mut t = tower_at_origin_offset(10);
    let here = Point::new(0, 0, 0);
    t.first_enemy_appeared = true;
    assert!(!t.update(TowerType::Nature, here, &vec![enemy(3, 4)], 0).unwrap().flip_angle);
    t.first_enemy_appeared = true;
    assert!(!t.update(TowerType::Nature, here, &vec![enemy(3, 0)], 0).unwrap().flip_angle);
    t.first_enemy_appeared = true;
    assert!(t.update(TowerType::Nature, here, &vec![enemy(3, -4)], 0).unwrap().flip_angle);
}

#[test]
fn react_follows_the_selector_answer() {
    let mut t = tower_at_origin_offset(10);
    let here = Point::new(0, 0, 0);
    assert_eq!(t.react(TowerType::Fire, here, None, TENTH), None);
    assert!(t.first_enemy_appeared);
    let d = Direction { x: 0, y: 1, z: 0 };
    let shot = t.react(TowerType::Fire, here, Some(d), TENTH).unwrap();
    assert_eq!(shot.projectile.direction, d);
    assert_eq!(shot.projectile.damage, 3);
    assert_eq!(t.react(TowerType::Fire, here, Some(d), TENTH), None);
}

#[test]
fn timer_rolls_over_whole_intervals() {
    let mut timer = AttackTimer::new(SECOND);
    timer.advance(SECOND / 2);
    assert!(!timer.ready());
    assert_eq!(timer.elapsed, SECOND / 2);
    timer.advance(SECOND);
    assert!(timer.ready());
    assert_eq!(timer.elapsed, SECOND / 2);
    timer.advance(SECOND / 4);
    assert!(!timer.ready());
    timer.advance(u64::MAX);
    assert!(timer.ready());
    assert!(timer.elapsed < SECOND);
    timer.reset();
    assert_eq!(timer, AttackTimer { interval: SECOND, elapsed: 0, just_finished: false });
}

#[test]
fn zero_interval_timer_is_always_ready() {
    let mut timer = AttackTimer::new(0);
    assert!(!timer.ready());
    timer.advance(0);
    assert!(timer.ready());
    assert_eq!(timer.elapsed, 0);
}

#[test]
fn catalog_covers_every_kind() {
    for kind in [TowerType::Nature, TowerType::Fire, TowerType::Ice, TowerType::Dark, TowerType::Mage, TowerType::Archmage] {
        let st = kind.stats();
        assert_eq!(st.damage, 1);
        assert_eq!(st.range, 10);
        assert_eq!(st.price, 100);
        assert_eq!(st.attack_interval, SECOND);
        assert_eq!(st.bullet_spawn_offset, Point::new(20, 0, 0));
        let p = kind.projectile();
        assert_eq!(p.speed, 1500);
        assert_eq!(p.lifetime, 2 * SECOND);
        let t = kind.get_tower();
        assert_eq!(t.sell_price, 33);
        assert_eq!(t.attack_speed, AttackTimer::new(SECOND));
        assert_eq!(t.target, TargetingPriority::CLOSE);
        let b = kind.get_bullet(7, Point::new(1, 2, 3), Direction { x: 1, y: 0, z: 0 });
        assert_eq!(b.damage, 7);
        assert_eq!(b.speed, 1500);
        assert_eq!(b.position, Point::new(1, 2, 3));
    }
}
