use vstd::prelude::*;

use crate::attack_timer::{advanced, reset_timer, AttackTimer};
use crate::geometry::{sum_fits, translate, Direction, EnemySnapshot, Point};
use crate::targeting_priority::{aims_at, select, TargetingPriority};
use crate::tower_type::{bullet_of, ProjectileSpawnRequest, TowerType};

verus! {

/// A tower placed in the world, with its firing state.
#[derive(Clone, Copy, Debug, PartialEq, Eq, Structural)]
pub struct Tower {
    /// Where shots leave the tower, relative to its position.
    pub bullet_spawn_offset: Point,
    pub damage: i32,
    /// The countdown between shots.
    pub attack_speed: AttackTimer,
    pub range: i32,
    pub price: i32,
    /// What selling the tower returns: a third of `price`, rounded down.
    pub sell_price: i32,
    /// Set while no enemy is in range, so that the tower fires at once when
    /// one appears rather than waiting out its timer.
    pub first_enemy_appeared: bool,
    /// How the tower picks its target.
    pub target: TargetingPriority,
}

/// What a tower does in a tick in which it fires.
#[derive(Clone, Copy, Debug, PartialEq, Eq, Structural)]
pub struct Shot {
    /// The projectile to launch.
    pub projectile: ProjectileSpawnRequest,
    /// Whether the target lies below the tower, so that the facing angle
    /// measured from world-up turns the other way.
    pub flip_angle: bool,
}

impl Tower {
    /// The tower's invariant.
    pub open spec fn wf(&self) -> bool {
        &&& self.range >= 0
        &&& self.sell_price == self.price / 3
        &&& self.attack_speed.wf()
    }
}

/// Where a tower at `position` launches its projectiles. The offset is added
/// as it stands, without the tower's current rotation.
pub open spec fn spawn_point(t: Tower, position: Point) -> Point {
    translate(position, t.bullet_spawn_offset)
}

/// What a tower of kind `kind` at `position` launches toward `d`.
pub open spec fn shot_of(t: Tower, kind: TowerType, position: Point, d: Direction) -> Shot {
    let from = spawn_point(t, position);
    Shot {
        projectile: bullet_of(kind, t.damage, from, d),
        flip_angle: from.y + d.y < position.y,
    }
}

/// One tick of a tower of kind `kind` at `position`, given what its
/// selector found and `dt` nanoseconds of elapsed time: the tower after the
/// tick, and the shot it fires, if any.
///
/// With no target the timer is reset and the tower marks that the next enemy
/// is the first to appear. With a target it fires when its timer has just
/// finished or the target is the first to appear, and then its timer runs on.
pub open spec fn step(t: Tower, kind: TowerType, position: Point, target: Option<Direction>, dt: u64) -> (Tower, Option<Shot>) {
    match target {
        None => (Tower { attack_speed: reset_timer(t.attack_speed), first_enemy_appeared: true, ..t }, None),
        Some(d) => {
            let fires = t.attack_speed.just_finished || t.first_enemy_appeared;
            (
                Tower { attack_speed: advanced(t.attack_speed, dt), first_enemy_appeared: false, ..t },
                if fires { Some(shot_of(t, kind, position, d)) } else { None },
            )
        },
    }
}

/// `price / 3` rounded down, for any sign of `price`.
pub fn floor_third(price: i32) -> (r: i32)
    ensures
        r == price / 3,
{
    let p: i64 = price as i64;
    if p >= 0 {
        let q: u64 = p as u64 / 3;
        q as i32
    } else {
        let n: u64 = (-p) as u64;
        let q: u64 = (n + 2) / 3;
        assert(-(q as int) == p / 3) by (nonlinear_arith)
            requires
                p < 0,
                n == -p,
                q == (n + 2) / 3,
        ;
        -(q as i64) as i32
    }
}

impl Tower {
    /// A tower with the given statistics, its sell price a third of its
    /// price, aiming at the closest enemy.
    pub fn new(bullet_spawn_offset: Point, damage: i32, attack_speed: AttackTimer, range: i32, price: i32) -> (r: Tower)
        requires
            range >= 0,
            attack_speed.wf(),
        ensures
            r == (Tower {
                bullet_spawn_offset,
                damage,
                attack_speed,
                range,
                price,
                sell_price: (price / 3) as i32,
                first_enemy_appeared: false,
                target: TargetingPriority::CLOSE,
            }),
            r.wf(),
    {
        Tower {
            bullet_spawn_offset,
            damage,
            attack_speed,
            range,
            price,
            sell_price: floor_third(price),
            first_enemy_appeared: false,
            target: TargetingPriority::CLOSE,
        }
    }

    /// What selling this tower returns.
    pub fn sell_price(&self) -> (r: i32)
        ensures
            r == self.sell_price,
    {
        self.sell_price
    }

    /// Where this tower, standing at `position`, launches its projectiles.
    pub fn bullet_spawn_pos(&self, position: Point) -> (r: Point)
        requires
            sum_fits(position, self.bullet_spawn_offset),
        ensures
            r == spawn_point(*self, position),
    {
        position.translated(&self.bullet_spawn_offset)
    }

    /// Takes one tick, given the direction toward the target that the
    /// tower's selector found (or `None`) and `dt` nanoseconds.
    pub fn react(&mut self, kind: TowerType, position: Point, target: Option<Direction>, dt: u64) -> (r: Option<Shot>)
        requires
            old(self).wf(),
            sum_fits(position, old(self).bullet_spawn_offset),
        ensures
            (*final(self), r) == step(*old(self), kind, position, target, dt),
            final(self).wf(),
    {
        match target {
            None => {
                self.attack_speed.reset();
                self.first_enemy_appeared = true;
                None
            },
            Some(d) => {
                let mut shot: Option<Shot> = None;
                if self.attack_speed.ready() || self.first_enemy_appeared {
                    self.first_enemy_appeared = false;
                    let from = self.bullet_spawn_pos(position);
                    let flip_angle: bool = d.y < position.y as i64 - from.y as i64;
                    shot = Some(Shot { projectile: kind.get_bullet(self.damage, from, d), flip_angle });
                }
                self.attack_speed.advance(dt);
                shot
            },
        }
    }

    /// Takes one tick of a tower of kind `kind` at `position` among
    /// `enemies`, `dt` nanoseconds after the last: picks a target within
    /// range of the spawn point by the tower's mode, then fires or waits.
    /// For every mode but `RANDOM` the target is the one answer that
    /// `lemma_answer_unique` shows.
    pub fn update(&mut self, kind: TowerType, position: Point, enemies: &Vec<EnemySnapshot>, dt: u64) -> (r: Option<Shot>)
        requires
            old(self).wf(),
            sum_fits(position, old(self).bullet_spawn_offset),
        ensures
            exists|target: Option<Direction>|
                aims_at(
                    enemies@,
                    spawn_point(*old(self), position),
                    old(self).range as u32,
                    old(self).target,
                    target,
                ) && (*final(self), r) == step(*old(self), kind, position, target, dt),
            final(self).wf(),
    {
        let from = self.bullet_spawn_pos(position);
        let target = select(enemies, from, self.range as u32, self.target);
        self.react(kind, position, target, dt)
    }
}

/// A tower after the ticks `ticks` (each a selector's answer and a time step).
pub open spec fn run(t: Tower, kind: TowerType, position: Point, ticks: Seq<(Option<Direction>, u64)>) -> Tower
    decreases ticks.len(),
{
    if ticks.len() == 0 {
        t
    } else {
        let last = ticks.last();
        step(run(t, kind, position, ticks.drop_last()), kind, position, last.0, last.1).0
    }
}

/// Whether the tower fires in tick `k` of `ticks`.
pub open spec fn fires_at(t: Tower, kind: TowerType, position: Point, ticks: Seq<(Option<Direction>, u64)>, k: int) -> bool {
    step(run(t, kind, position, ticks.take(k)), kind, position, ticks[k].0, ticks[k].1).1 is Some
}

/// A tower whose timer stands at zero and that never has an enemy in range
/// never fires, and its timer stays at zero.
pub proof fn lemma_idle_tower(t: Tower, kind: TowerType, position: Point, ticks: Seq<(Option<Direction>, u64)>)
    requires
        t.attack_speed.elapsed == 0,
        forall|k: int| 0 <= k < ticks.len() ==> ticks[k].0 is None,
    ensures
        run(t, kind, position, ticks).attack_speed.elapsed == 0,
        forall|k: int| 0 <= k < ticks.len() ==> !fires_at(t, kind, position, ticks, k),
    decreases ticks.len(),
{
    if ticks.len() > 0 {
        lemma_idle_tower(t, kind, position, ticks.drop_last());
    }
}

/// A tower fires in the first tick in which an enemy is in range after a
/// tick without one, whatever its timer shows.
pub proof fn lemma_fires_on_first_sight(t: Tower, kind: TowerType, position: Point, ticks: Seq<(Option<Direction>, u64)>, k: int)
    requires
        0 < k < ticks.len(),
        ticks[k - 1].0 is None,
        ticks[k].0 is Some,
    ensures
        fires_at(t, kind, position, ticks, k),
{
    assert(ticks.take(k).drop_last() == ticks.take(k - 1));
    assert(ticks.take(k).last() == ticks[k - 1]);
}

} // verus!
