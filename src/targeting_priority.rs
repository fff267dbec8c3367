use vstd::prelude::*;

use crate::geometry::{dist_sq, displacement, within, Direction, EnemySnapshot, Point};

verus! {

/// How a tower picks one enemy among those in its range.
///
/// The modes form a cycle, in declaration order, that the player steps
/// through with `next_target` and `prev_target`.
#[allow(non_camel_case_types)]
#[derive(Clone, Copy, Debug, PartialEq, Eq, Structural)]
pub enum TargetingPriority {
    /// The enemy that has travelled farthest along the path.
    FIRST,
    /// The enemy that has travelled least along the path.
    LAST,
    /// The enemy nearest to the tower.
    CLOSE,
    /// The enemy farthest from the tower, within range.
    FAR,
    /// The enemy with the most health.
    STRONG,
    /// The enemy with the least health.
    WEAK,
    /// Any enemy in range, chosen uniformly at random.
    RANDOM,
}

/// The mode that follows `m` in the cycle.
pub open spec fn next_mode(m: TargetingPriority) -> TargetingPriority {
    match m {
        TargetingPriority::FIRST => TargetingPriority::LAST,
        TargetingPriority::LAST => TargetingPriority::CLOSE,
        TargetingPriority::CLOSE => TargetingPriority::FAR,
        TargetingPriority::FAR => TargetingPriority::STRONG,
        TargetingPriority::STRONG => TargetingPriority::WEAK,
        TargetingPriority::WEAK => TargetingPriority::RANDOM,
        TargetingPriority::RANDOM => TargetingPriority::FIRST,
    }
}

/// The mode that precedes `m` in the cycle.
pub open spec fn prev_mode(m: TargetingPriority) -> TargetingPriority {
    match m {
        TargetingPriority::FIRST => TargetingPriority::RANDOM,
        TargetingPriority::LAST => TargetingPriority::FIRST,
        TargetingPriority::CLOSE => TargetingPriority::LAST,
        TargetingPriority::FAR => TargetingPriority::CLOSE,
        TargetingPriority::STRONG => TargetingPriority::FAR,
        TargetingPriority::WEAK => TargetingPriority::STRONG,
        TargetingPriority::RANDOM => TargetingPriority::WEAK,
    }
}

/// `m` after `n` steps forward through the cycle.
pub open spec fn advance_mode(m: TargetingPriority, n: nat) -> TargetingPriority
    decreases n,
{
    if n == 0 {
        m
    } else {
        next_mode(advance_mode(m, (n - 1) as nat))
    }
}

impl Default for TargetingPriority {
    fn default() -> (r: Self)
        ensures
            r == TargetingPriority::FIRST,
    {
        TargetingPriority::FIRST
    }
}

impl TargetingPriority {
    /// Steps forward to the next mode, wrapping from `RANDOM` to `FIRST`.
    pub fn next_target(&mut self)
        ensures
            *final(self) == next_mode(*old(self)),
    {
        *self = match *self {
            TargetingPriority::FIRST => TargetingPriority::LAST,
            TargetingPriority::LAST => TargetingPriority::CLOSE,
            TargetingPriority::CLOSE => TargetingPriority::FAR,
            TargetingPriority::FAR => TargetingPriority::STRONG,
            TargetingPriority::STRONG => TargetingPriority::WEAK,
            TargetingPriority::WEAK => TargetingPriority::RANDOM,
            TargetingPriority::RANDOM => TargetingPriority::FIRST,
        };
    }

    /// Steps back to the previous mode, wrapping from `FIRST` to `RANDOM`.
    pub fn prev_target(&mut self)
        ensures
            *final(self) == prev_mode(*old(self)),
    {
        *self = match *self {
            TargetingPriority::FIRST => TargetingPriority::RANDOM,
            TargetingPriority::LAST => TargetingPriority::FIRST,
            TargetingPriority::CLOSE => TargetingPriority::LAST,
            TargetingPriority::FAR => TargetingPriority::CLOSE,
            TargetingPriority::STRONG => TargetingPriority::FAR,
            TargetingPriority::WEAK => TargetingPriority::STRONG,
            TargetingPriority::RANDOM => TargetingPriority::WEAK,
        };
    }
}

/// Seven steps forward through the modes lead back to the starting mode, and
/// a step forward followed by a step back changes nothing.
pub proof fn lemma_mode_cycle(m: TargetingPriority)
    ensures
        advance_mode(m, 7) == m,
        prev_mode(next_mode(m)) == m,
        next_mode(prev_mode(m)) == m,
{
    reveal_with_fuel(advance_mode, 8);
}

/// Whether index `i` of `s` holds an enemy within `range` of `origin`.
pub open spec fn in_range(s: Seq<EnemySnapshot>, origin: Point, range: u32, i: int) -> bool {
    0 <= i < s.len() && within(s[i].position, origin, range)
}

/// Whether any enemy of `s` is within `range` of `origin`.
pub open spec fn has_target(s: Seq<EnemySnapshot>, origin: Point, range: u32) -> bool {
    exists|i: int| in_range(s, origin, range, i)
}

/// Whether mode `m` prefers the enemy with the largest rank.
pub open spec fn seeks_max(m: TargetingPriority) -> bool {
    m is FIRST || m is FAR || m is STRONG
}

/// What mode `m` compares enemies by: distance travelled, squared distance
/// to `origin` (which orders enemies as the distance does), or health.
pub open spec fn rank(m: TargetingPriority, e: EnemySnapshot, origin: Point) -> int {
    match m {
        TargetingPriority::FIRST | TargetingPriority::LAST => e.distance_travelled as int,
        TargetingPriority::CLOSE | TargetingPriority::FAR => dist_sq(e.position, origin),
        _ => e.health as int,
    }
}

/// Whether `a` ranks strictly ahead of `b` under mode `m`.
pub open spec fn ahead(m: TargetingPriority, a: EnemySnapshot, b: EnemySnapshot, origin: Point) -> bool {
    if seeks_max(m) {
        rank(m, a, origin) > rank(m, b, origin)
    } else {
        rank(m, a, origin) < rank(m, b, origin)
    }
}

/// Whether index `i` is what mode `m` picks among the in-range enemies of
/// `s` below index `n`: no such enemy ranks ahead of it, and every one before
/// it ranks behind it, so the first of equally ranked enemies wins.
pub open spec fn is_pick_upto(
    s: Seq<EnemySnapshot>,
    origin: Point,
    range: u32,
    m: TargetingPriority,
    i: int,
    n: int,
) -> bool {
    &&& 0 <= i < n <= s.len()
    &&& in_range(s, origin, range, i)
    &&& forall|j: int| 0 <= j < n && in_range(s, origin, range, j) ==> !ahead(m, s[j], s[i], origin)
    &&& forall|j: int| 0 <= j < i && in_range(s, origin, range, j) ==> ahead(m, s[i], s[j], origin)
}

/// Whether index `i` is what mode `m` picks among all in-range enemies of `s`.
pub open spec fn is_pick(s: Seq<EnemySnapshot>, origin: Point, range: u32, m: TargetingPriority, i: int) -> bool {
    is_pick_upto(s, origin, range, m, i, s.len() as int)
}

/// Whether index `i` may be chosen by mode `m`: the pick of a ranking mode,
/// or any in-range enemy for `RANDOM`.
pub open spec fn may_choose(s: Seq<EnemySnapshot>, origin: Point, range: u32, m: TargetingPriority, i: int) -> bool {
    if m is RANDOM {
        in_range(s, origin, range, i)
    } else {
        is_pick(s, origin, range, m, i)
    }
}

/// Whether `d` is an answer of mode `m` for the enemies `s`: no target when
/// none is in range, else the displacement from `origin` to a chosen enemy.
pub open spec fn aims_at(
    s: Seq<EnemySnapshot>,
    origin: Point,
    range: u32,
    m: TargetingPriority,
    d: Option<Direction>,
) -> bool {
    match d {
        None => !has_target(s, origin, range),
        Some(d) => exists|i: int| may_choose(s, origin, range, m, i) && d == displacement(origin, s[i].position),
    }
}

/// How many enemies among the first `n` of `s` are in range.
pub open spec fn count_in_range(s: Seq<EnemySnapshot>, origin: Point, range: u32, n: int) -> nat
    decreases n,
{
    if n <= 0 {
        0
    } else if in_range(s, origin, range, n - 1) {
        count_in_range(s, origin, range, n - 1) + 1
    } else {
        count_in_range(s, origin, range, n - 1)
    }
}

/// Whether index `i` holds the in-range enemy that has `k` in-range enemies before it.
pub open spec fn is_nth_in_range(s: Seq<EnemySnapshot>, origin: Point, range: u32, k: int, i: int) -> bool {
    in_range(s, origin, range, i) && count_in_range(s, origin, range, i) == k
}

/// The rank of `e` under mode `m`, for any mode but `RANDOM`.
fn rank_of(m: TargetingPriority, e: &EnemySnapshot, origin: &Point) -> (r: u128)
    requires
        !(m is RANDOM),
    ensures
        r == rank(m, *e, *origin),
{
    match m {
        TargetingPriority::FIRST | TargetingPriority::LAST => e.distance_travelled as u128,
        TargetingPriority::CLOSE | TargetingPriority::FAR => e.position.distance_squared(origin),
        _ => e.health as u128,
    }
}

/// The index of the enemy that mode `m` picks, or `None` when no enemy is in
/// range. The one shared filter and extremum search of the ranking modes.
fn pick_index(enemies: &Vec<EnemySnapshot>, origin: Point, range: u32, m: TargetingPriority) -> (r: Option<usize>)
    requires
        !(m is RANDOM),
    ensures
        r is None <==> !has_target(enemies@, origin, range),
        r matches Some(i) ==> is_pick(enemies@, origin, range, m, i as int),
{
    let ghost s = enemies@;
    let maximise: bool = match m {
        TargetingPriority::FIRST | TargetingPriority::FAR | TargetingPriority::STRONG => true,
        _ => false,
    };
    let mut best: Option<usize> = None;
    let mut best_rank: u128 = 0;
    let mut i: usize = 0;
    while i < enemies.len()
        invariant
            s == enemies@,
            !(m is RANDOM),
            maximise == seeks_max(m),
            i <= s.len(),
            best is None ==> forall|j: int| 0 <= j < i ==> !in_range(s, origin, range, j),
            best matches Some(b) ==> is_pick_upto(s, origin, range, m, b as int, i as int)
                && best_rank == rank(m, s[b as int], origin),
        decreases s.len() - i,
    {
        let e = &enemies[i];
        if e.position.is_within(&origin, range) {
            let k: u128 = rank_of(m, e, &origin);
            let better: bool = match best {
                None => true,
                Some(_) => if maximise { k > best_rank } else { k < best_rank },
            };
            if better {
                best = Some(i);
                best_rank = k;
            }
        }
        i = i + 1;
    }
    proof {
        if best is None {
            assert forall|j: int| !in_range(s, origin, range, j) by {}
        }
    }
    best
}

/// The displacement toward the enemy that ranking mode `m` picks.
fn ranked_direction(enemies: &Vec<EnemySnapshot>, origin: Point, range: u32, m: TargetingPriority) -> (r: Option<Direction>)
    requires
        !(m is RANDOM),
    ensures
        aims_at(enemies@, origin, range, m, r),
        r matches Some(d) ==> exists|i: int|
            is_pick(enemies@, origin, range, m, i) && d == displacement(origin, enemies@[i].position),
{
    match pick_index(enemies, origin, range, m) {
        None => None,
        Some(i) => {
            let d = origin.direction_to(&enemies[i].position);
            assert(may_choose(enemies@, origin, range, m, i as int));
            Some(d)
        },
    }
}

/// The displacement toward the in-range enemy that has travelled farthest.
pub fn first_enemy_direction(enemies: &Vec<EnemySnapshot>, bullet_spawn_pos: Point, tower_range: u32) -> (r: Option<Direction>)
    ensures
        aims_at(enemies@, bullet_spawn_pos, tower_range, TargetingPriority::FIRST, r),
{
    ranked_direction(enemies, bullet_spawn_pos, tower_range, TargetingPriority::FIRST)
}

/// The displacement toward the in-range enemy that has travelled least.
pub fn last_enemy_direction(enemies: &Vec<EnemySnapshot>, bullet_spawn_pos: Point, tower_range: u32) -> (r: Option<Direction>)
    ensures
        aims_at(enemies@, bullet_spawn_pos, tower_range, TargetingPriority::LAST, r),
{
    ranked_direction(enemies, bullet_spawn_pos, tower_range, TargetingPriority::LAST)
}

/// The displacement toward the in-range enemy nearest to `bullet_spawn_pos`.
pub fn closest_enemy_direction(enemies: &Vec<EnemySnapshot>, bullet_spawn_pos: Point, tower_range: u32) -> (r: Option<Direction>)
    ensures
        aims_at(enemies@, bullet_spawn_pos, tower_range, TargetingPriority::CLOSE, r),
{
    ranked_direction(enemies, bullet_spawn_pos, tower_range, TargetingPriority::CLOSE)
}

/// The displacement toward the in-range enemy farthest from `bullet_spawn_pos`.
pub fn farthest_enemy_direction(enemies: &Vec<EnemySnapshot>, bullet_spawn_pos: Point, tower_range: u32) -> (r: Option<Direction>)
    ensures
        aims_at(enemies@, bullet_spawn_pos, tower_range, TargetingPriority::FAR, r),
{
    ranked_direction(enemies, bullet_spawn_pos, tower_range, TargetingPriority::FAR)
}

/// The displacement toward the in-range enemy with the most health.
pub fn strongest_enemy_direction(enemies: &Vec<EnemySnapshot>, bullet_spawn_pos: Point, tower_range: u32) -> (r: Option<Direction>)
    ensures
        aims_at(enemies@, bullet_spawn_pos, tower_range, TargetingPriority::STRONG, r),
{
    ranked_direction(enemies, bullet_spawn_pos, tower_range, TargetingPriority::STRONG)
}

/// The displacement toward the in-range enemy with the least health.
pub fn weakest_enemy_direction(enemies: &Vec<EnemySnapshot>, bullet_spawn_pos: Point, tower_range: u32) -> (r: Option<Direction>)
    ensures
        aims_at(enemies@, bullet_spawn_pos, tower_range, TargetingPriority::WEAK, r),
{
    ranked_direction(enemies, bullet_spawn_pos, tower_range, TargetingPriority::WEAK)
}

/// How many enemies are within `range` of `origin`.
pub fn in_range_count(enemies: &Vec<EnemySnapshot>, origin: Point, range: u32) -> (r: usize)
    ensures
        r == count_in_range(enemies@, origin, range, enemies@.len() as int),
{
    let ghost s = enemies@;
    let mut c: usize = 0;
    let mut i: usize = 0;
    while i < enemies.len()
        invariant
            s == enemies@,
            i <= s.len(),
            c == count_in_range(s, origin, range, i as int),
            c <= i,
        decreases s.len() - i,
    {
        if enemies[i].position.is_within(&origin, range) {
            c = c + 1;
        }
        i = i + 1;
    }
    c
}

/// The index of the in-range enemy that has `k` in-range enemies before it,
/// or `None` when fewer than `k + 1` enemies are in range.
pub fn nth_in_range(enemies: &Vec<EnemySnapshot>, origin: Point, range: u32, k: usize) -> (r: Option<usize>)
    ensures
        r is None <==> k >= count_in_range(enemies@, origin, range, enemies@.len() as int),
        r matches Some(i) ==> is_nth_in_range(enemies@, origin, range, k as int, i as int),
{
    let ghost s = enemies@;
    let mut c: usize = 0;
    let mut i: usize = 0;
    while i < enemies.len()
        invariant
            s == enemies@,
            i <= s.len(),
            c == count_in_range(s, origin, range, i as int),
            c <= k,
        decreases s.len() - i,
    {
        if enemies[i].position.is_within(&origin, range) {
            if c == k {
                proof {
                    lemma_count_past_in_range(s, origin, range, i as int, s.len() as int);
                }
                return Some(i);
            }
            c = c + 1;
        }
        i = i + 1;
    }
    None
}

/// The displacement toward the in-range enemy that has `k` in-range enemies
/// before it, or `None` when fewer than `k + 1` enemies are in range.
///
/// A uniform draw of `k` below the number of enemies in range makes this the
/// `RANDOM` mode with the random source left to the caller.
pub fn nth_enemy_direction(enemies: &Vec<EnemySnapshot>, bullet_spawn_pos: Point, tower_range: u32, k: usize) -> (r: Option<Direction>)
    ensures
        r is None <==> k >= count_in_range(enemies@, bullet_spawn_pos, tower_range, enemies@.len() as int),
        r matches Some(d) ==> exists|i: int|
            is_nth_in_range(enemies@, bullet_spawn_pos, tower_range, k as int, i)
                && d == displacement(bullet_spawn_pos, enemies@[i].position),
{
    match nth_in_range(enemies, bullet_spawn_pos, tower_range, k) {
        None => None,
        Some(i) => {
            let d = bullet_spawn_pos.direction_to(&enemies[i].position);
            assert(is_nth_in_range(enemies@, bullet_spawn_pos, tower_range, k as int, i as int));
            Some(d)
        },
    }
}

/// Relies on rand's `IteratorRandom::choose`, over the indices `0..n` and with
/// `rand::thread_rng()`: it returns `None` exactly when the iterator is empty,
/// and otherwise one of its items.
#[verifier::external_body]
fn choose_index(n: usize) -> (r: Option<usize>)
    ensures
        r is None <==> n == 0,
        r matches Some(k) ==> k < n,
{
    rand::seq::IteratorRandom::choose(0..n, &mut rand::thread_rng())
}

/// Every in-range index counts fewer in-range enemies before it than there are.
proof fn lemma_count_past_in_range(s: Seq<EnemySnapshot>, origin: Point, range: u32, i: int, n: int)
    requires
        in_range(s, origin, range, i),
        i < n,
    ensures
        count_in_range(s, origin, range, i) < count_in_range(s, origin, range, n),
    decreases n - i,
{
    if n - 1 > i {
        lemma_count_past_in_range(s, origin, range, i, n - 1);
    }
    lemma_count_monotone(s, origin, range, i, n - 1);
}

/// The in-range count never falls as the prefix grows.
proof fn lemma_count_monotone(s: Seq<EnemySnapshot>, origin: Point, range: u32, i: int, n: int)
    requires
        i <= n,
    ensures
        count_in_range(s, origin, range, i) <= count_in_range(s, origin, range, n),
    decreases n - i,
{
    if i < n {
        lemma_count_monotone(s, origin, range, i, n - 1);
    }
}

/// The displacement toward an in-range enemy drawn uniformly at random.
pub fn random_enemy_direction(enemies: &Vec<EnemySnapshot>, bullet_spawn_pos: Point, tower_range: u32) -> (r: Option<Direction>)
    ensures
        aims_at(enemies@, bullet_spawn_pos, tower_range, TargetingPriority::RANDOM, r),
{
    let ghost s = enemies@;
    let n: usize = in_range_count(enemies, bullet_spawn_pos, tower_range);
    match choose_index(n) {
        None => {
            proof {
                if has_target(s, bullet_spawn_pos, tower_range) {
                    let i = choose|i: int| in_range(s, bullet_spawn_pos, tower_range, i);
                    lemma_count_past_in_range(s, bullet_spawn_pos, tower_range, i, s.len() as int);
                }
            }
            None
        },
        Some(k) => {
            let r = nth_enemy_direction(enemies, bullet_spawn_pos, tower_range, k);
            proof {
                let d = r.unwrap();
                let i = choose|i: int|
                    is_nth_in_range(s, bullet_spawn_pos, tower_range, k as int, i)
                        && d == displacement(bullet_spawn_pos, s[i].position);
                assert(may_choose(s, bullet_spawn_pos, tower_range, TargetingPriority::RANDOM, i));
            }
            r
        },
    }
}

/// The displacement from `origin` toward the enemy that mode `mode` chooses
/// among those within `range`, or `None` when no enemy is in range.
pub fn select(enemies: &Vec<EnemySnapshot>, origin: Point, range: u32, mode: TargetingPriority) -> (r: Option<Direction>)
    ensures
        aims_at(enemies@, origin, range, mode, r),
{
    match mode {
        TargetingPriority::FIRST => first_enemy_direction(enemies, origin, range),
        TargetingPriority::LAST => last_enemy_direction(enemies, origin, range),
        TargetingPriority::CLOSE => closest_enemy_direction(enemies, origin, range),
        TargetingPriority::FAR => farthest_enemy_direction(enemies, origin, range),
        TargetingPriority::STRONG => strongest_enemy_direction(enemies, origin, range),
        TargetingPriority::WEAK => weakest_enemy_direction(enemies, origin, range),
        TargetingPriority::RANDOM => random_enemy_direction(enemies, origin, range),
    }
}

/// A ranking mode picks at most one enemy: selection is deterministic, the
/// first of equally ranked enemies winning.
pub proof fn lemma_pick_unique(s: Seq<EnemySnapshot>, origin: Point, range: u32, m: TargetingPriority, i: int, k: int)
    requires
        is_pick(s, origin, range, m, i),
        is_pick(s, origin, range, m, k),
    ensures
        i == k,
{
    if i < k {
        assert(ahead(m, s[k], s[i], origin));
    } else if k < i {
        assert(ahead(m, s[i], s[k], origin));
    }
}

/// A ranking mode has exactly one answer for given enemies, origin and
/// range: `aims_at` pins the result of every mode but `RANDOM`.
pub proof fn lemma_answer_unique(
    s: Seq<EnemySnapshot>,
    origin: Point,
    range: u32,
    m: TargetingPriority,
    d1: Option<Direction>,
    d2: Option<Direction>,
)
    requires
        !(m is RANDOM),
        aims_at(s, origin, range, m, d1),
        aims_at(s, origin, range, m, d2),
    ensures
        d1 == d2,
{
    if d1 is Some && d2 is Some {
        let i = choose|i: int| may_choose(s, origin, range, m, i) && d1.unwrap() == displacement(origin, s[i].position);
        let k = choose|k: int| may_choose(s, origin, range, m, k) && d2.unwrap() == displacement(origin, s[k].position);
        lemma_pick_unique(s, origin, range, m, i, k);
    } else if d1 is Some {
        let i = choose|i: int| may_choose(s, origin, range, m, i) && d1.unwrap() == displacement(origin, s[i].position);
        assert(in_range(s, origin, range, i));
    } else if d2 is Some {
        let k = choose|k: int| may_choose(s, origin, range, m, k) && d2.unwrap() == displacement(origin, s[k].position);
        assert(in_range(s, origin, range, k));
    }
}

/// `FIRST` and `LAST` pick the same enemy exactly when a single enemy is in
/// range, where no two in-range enemies have travelled the same distance.
pub proof fn lemma_first_last_agree(s: Seq<EnemySnapshot>, origin: Point, range: u32, i: int, j: int)
    requires
        is_pick(s, origin, range, TargetingPriority::FIRST, i),
        is_pick(s, origin, range, TargetingPriority::LAST, j),
        forall|a: int, b: int|
            in_range(s, origin, range, a) && in_range(s, origin, range, b) && a != b
                ==> s[a].distance_travelled != s[b].distance_travelled,
    ensures
        (i == j) <==> (forall|k: int| in_range(s, origin, range, k) ==> k == i),
{
    if i == j {
        assert forall|k: int| in_range(s, origin, range, k) implies k == i by {
            assert(!ahead(TargetingPriority::FIRST, s[k], s[i], origin));
            assert(!ahead(TargetingPriority::LAST, s[k], s[j], origin));
        }
    }
}

/// `s` with the health values of the enemies at `a` and `b` exchanged.
pub open spec fn swap_health(s: Seq<EnemySnapshot>, a: int, b: int) -> Seq<EnemySnapshot> {
    s.update(a, EnemySnapshot { health: s[b].health, ..s[a] }).update(
        b,
        EnemySnapshot { health: s[a].health, ..s[b] },
    )
}

/// Exchanging the health of two in-range enemies exchanges which of them
/// `STRONG` (and, alike, `WEAK`) picks, and leaves any other pick in place,
/// where the picked enemy's health is strictly the extreme one.
pub proof fn lemma_health_swap(s: Seq<EnemySnapshot>, origin: Point, range: u32, m: TargetingPriority, a: int, b: int, p: int)
    requires
        m is STRONG || m is WEAK,
        in_range(s, origin, range, a),
        in_range(s, origin, range, b),
        is_pick(s, origin, range, m, p),
        forall|k: int| in_range(s, origin, range, k) && k != p ==> ahead(m, s[p], s[k], origin),
    ensures
        is_pick(swap_health(s, a, b), origin, range, m, if p == a { b } else if p == b { a } else { p }),
{
    let t = swap_health(s, a, b);
    let q = if p == a { b } else if p == b { a } else { p };
    assert forall|k: int| 0 <= k < s.len() implies t[k].position == s[k].position by {}
    assert forall|k: int| in_range(t, origin, range, k) <==> in_range(s, origin, range, k) by {}
    // The enemy at `k` in `t` carries the health of the enemy at `src(k)` in `s`.
    assert forall|k: int| 0 <= k < s.len() implies
        t[k].health == s[if k == a { b } else if k == b { a } else { k }].health by {}
    assert(t[q].health == s[p].health);
    assert forall|k: int| in_range(t, origin, range, k) && k != q implies ahead(m, t[q], t[k], origin) by {
        let src = if k == a { b } else if k == b { a } else { k };
        assert(src != p);
        assert(in_range(s, origin, range, src));
    }
}

} // verus!
