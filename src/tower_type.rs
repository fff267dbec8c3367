use vstd::prelude::*;

use crate::attack_timer::AttackTimer;
use crate::geometry::{Direction, Point};
use crate::tower::Tower;
use crate::targeting_priority::TargetingPriority;

verus! {

/// The kinds of tower a player can build.
#[derive(Clone, Copy, Debug, PartialEq, Eq, Structural)]
pub enum TowerType {
    Nature,
    Fire,
    Ice,
    Dark,
    Mage,
    Archmage,
}

/// The base statistics of a kind of tower.
#[derive(Clone, Copy, Debug, PartialEq, Eq, Structural)]
pub struct TowerStats {
    /// Where shots leave the tower, relative to its position.
    pub bullet_spawn_offset: Point,
    pub damage: i32,
    /// Nanoseconds between two shots.
    pub attack_interval: u64,
    pub range: i32,
    pub price: i32,
}

/// What a kind of tower's projectiles are like.
#[derive(Clone, Copy, Debug, PartialEq, Eq, Structural)]
pub struct ProjectileStats {
    /// World units per second.
    pub speed: u32,
    /// Nanoseconds before the projectile expires.
    pub lifetime: u64,
}

/// A request to the projectile subsystem to launch one projectile.
#[derive(Clone, Copy, Debug, PartialEq, Eq, Structural)]
pub struct ProjectileSpawnRequest {
    pub damage: i32,
    /// Where the projectile starts, in world space.
    pub position: Point,
    /// Where it heads: the unnormalised displacement toward its target.
    pub direction: Direction,
    /// World units per second.
    pub speed: u32,
    /// Nanoseconds before the projectile expires.
    pub lifetime: u64,
}

/// One second, in nanoseconds.
pub const SECOND: u64 = 1_000_000_000;

/// The base statistics of towers of kind `kind`. Every kind currently
/// shares the same baseline.
pub open spec fn stats_of(kind: TowerType) -> TowerStats {
    TowerStats {
        bullet_spawn_offset: Point { x: 20, y: 0, z: 0 },
        damage: 1,
        attack_interval: SECOND,
        range: 10,
        price: 100,
    }
}

/// What the projectiles of towers of kind `kind` are like.
pub open spec fn projectile_of(kind: TowerType) -> ProjectileStats {
    ProjectileStats { speed: 1500, lifetime: (2 * SECOND) as u64 }
}

/// A fresh tower with the statistics `st`: its timer at the start of an
/// interval, its sell price a third of its price, aiming at the closest enemy.
pub open spec fn tower_from(st: TowerStats) -> Tower {
    Tower {
        bullet_spawn_offset: st.bullet_spawn_offset,
        damage: st.damage,
        attack_speed: AttackTimer { interval: st.attack_interval, elapsed: 0, just_finished: false },
        range: st.range,
        price: st.price,
        sell_price: (st.price / 3) as i32,
        first_enemy_appeared: false,
        target: TargetingPriority::CLOSE,
    }
}

/// The projectile that a tower of kind `kind` launches.
pub open spec fn bullet_of(kind: TowerType, damage: i32, position: Point, direction: Direction) -> ProjectileSpawnRequest {
    ProjectileSpawnRequest {
        damage,
        position,
        direction,
        speed: projectile_of(kind).speed,
        lifetime: projectile_of(kind).lifetime,
    }
}

impl TowerType {
    /// The base statistics of this kind of tower.
    pub fn stats(&self) -> (r: TowerStats)
        ensures
            r == stats_of(*self),
    {
        TowerStats {
            bullet_spawn_offset: Point { x: 20, y: 0, z: 0 },
            damage: 1,
            attack_interval: SECOND,
            range: 10,
            price: 100,
        }
    }

    /// What this kind of tower's projectiles are like.
    pub fn projectile(&self) -> (r: ProjectileStats)
        ensures
            r == projectile_of(*self),
    {
        ProjectileStats { speed: 1500, lifetime: 2 * SECOND }
    }

    /// A fresh tower of this kind.
    pub fn get_tower(&self) -> (r: Tower)
        ensures
            r == tower_from(stats_of(*self)),
            r.wf(),
    {
        let st = self.stats();
        Tower::new(st.bullet_spawn_offset, st.damage, AttackTimer::new(st.attack_interval), st.range, st.price)
    }

    /// The projectile that this kind of tower launches with `damage` from
    /// `position` toward `direction`.
    pub fn get_bullet(&self, damage: i32, position: Point, direction: Direction) -> (r: ProjectileSpawnRequest)
        ensures
            r == bullet_of(*self, damage, position, direction),
    {
        let p = self.projectile();
        ProjectileSpawnRequest { damage, position, direction, speed: p.speed, lifetime: p.lifetime }
    }
}

} // verus!
