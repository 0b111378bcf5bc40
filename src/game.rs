//! The simulation orchestrator: owns every entity, runs the per-frame
//! update, resolves collisions, keeps the score and governs the population.
use vstd::prelude::*;
use crate::ai::{create_bullet_from_ship, dist2, distance2, piloted, ship_bullet, update_ship_ai, TARGET_LIMIT};
use crate::asteroid::{asteroid_points, asteroid_step, points_of, Asteroid, SPLIT_OFFSET};
use crate::bullet::{bullet_step, Bullet};
use crate::color::Color;
use crate::fixed::{COORD_LIMIT, DT_LIMIT, MOVE_LIMIT, TAU_U, UNIT};
use crate::physics::{wrap_position, wrapped, WRAP_LIMIT};
use crate::random::{chance, roll, roll_between};
use crate::saucer::{body_size, saucer_points, saucer_points_of, Saucer, SaucerSize};
use crate::ship::{burst_of, burst_ready, respawn_of, Ship, NOSE_OFFSET};

verus! {

/// Time between asteroid spawns, in microseconds.
pub const ASTEROID_PERIOD: i64 = 3_000_000;

/// Time between saucer spawns, in microseconds.
pub const SAUCER_PERIOD: i64 = 10_000_000;

/// Most saucers alive at once for a new one to spawn.
pub const MAX_SAUCERS: usize = 2;

/// Deaths closer together than this count as quick succession.
pub const DEATH_WINDOW: i64 = 3_000_000;

/// Quick deaths in a row that clear the field.
pub const DEATHS_TO_CLEAR: u32 = 3;

/// Asteroid spawn timer after the field is cleared: a grace period.
pub const SPAWN_GRACE: i64 = -5_000_000;

/// Squared distance below which an enemy projectile hits the ship.
pub const SHIP_HIT_DIST2: i128 = 10_000_000_000;

/// Value at which the timers saturate.
pub const TIMER_CAP: i64 = 0x4000_0000_0000_0000;

/// Coordinate magnitude every entity keeps between two frames.
pub const PLAY_LIMIT: i64 = 0x80_0000_0000;

/// Coordinate magnitude every entity keeps within one frame.
pub const FRAME_LIMIT: i64 = 0x84_0000_0000;

/// Identity tag of the player ship.
pub const SHIP_ID: usize = 0;

/// Both coordinates of a position lie within `limit`.
pub open spec fn within(x: i64, y: i64, limit: int) -> bool {
    -limit <= x <= limit && -limit <= y <= limit
}

/// The death-loop counter after a death that comes `since` microseconds
/// after the previous one, and whether that death clears the field.
pub open spec fn death_outcome(count: int, since: int) -> (int, bool) {
    let c = if since < DEATH_WINDOW { count + 1 } else { 1 };
    if c >= DEATHS_TO_CLEAR {
        (0, true)
    } else {
        (c, false)
    }
}

/// `t + dt`, saturating at `TIMER_CAP`.
pub open spec fn advanced(t: int, dt: int) -> int {
    if t + dt > TIMER_CAP {
        TIMER_CAP as int
    } else {
        t + dt
    }
}

/// Three deaths with under `DEATH_WINDOW` between each consecutive pair,
/// the first of them not itself within `DEATH_WINDOW` of an earlier death,
/// clear the field at the third; the first two clear nothing.
pub proof fn lemma_quick_deaths_clear(count: int, since: int, gap1: int, gap2: int)
    requires
        since >= DEATH_WINDOW,
        0 <= gap1 < DEATH_WINDOW,
        0 <= gap2 < DEATH_WINDOW,
    ensures
        !death_outcome(count, since).1,
        !death_outcome(death_outcome(count, since).0, gap1).1,
        death_outcome(death_outcome(death_outcome(count, since).0, gap1).0, gap2).1,
{
}

/// Every projectile is well formed and within `limit` of the centre.
pub open spec fn bullets_ok(bs: Seq<Bullet>, limit: int) -> bool {
    forall|i: int| 0 <= i < bs.len() ==> (#[trigger] bs[i]).wf() && within(bs[i].x, bs[i].y, limit)
}

/// Every asteroid is well formed and within `limit` of the centre.
pub open spec fn asteroids_ok(a: Seq<Asteroid>, limit: int) -> bool {
    forall|i: int| 0 <= i < a.len() ==> (#[trigger] a[i]).wf() && within(a[i].x, a[i].y, limit)
}

/// Every saucer is well formed and within `limit` of the centre.
pub open spec fn saucers_ok(s: Seq<Saucer>, limit: int) -> bool {
    forall|i: int| 0 <= i < s.len() ==> (#[trigger] s[i]).wf() && within(s[i].x, s[i].y, limit)
}

/// No two saucers share an identity tag.
pub open spec fn ids_distinct(s: Seq<Saucer>) -> bool {
    forall|p: int, q: int| 0 <= p < q < s.len() ==> (#[trigger] s[p]).id != (#[trigger] s[q]).id
}

/// Saucers `s0` and projectiles `b0` become `s1` and `b1` as saucers move
/// for `dt` and fire: the saucers kept are live ones on the field, each one
/// of `s0` moved, in order and without repeats; the projectiles are `b0`
/// followed by fresh ones fired by those saucers.
pub open spec fn saucers_advanced(s0: Seq<Saucer>, b0: Seq<Bullet>, s1: Seq<Saucer>, b1: Seq<Bullet>, dt: int) -> bool {
    &&& saucers_ok(s1, crate::saucer::SAUCER_EXIT_LIMIT as int)
    &&& forall|i: int| 0 <= i < s1.len() ==> (#[trigger] s1[i]).alive
    &&& s1.len() <= s0.len()
    &&& forall|i: int| 0 <= i < s1.len() ==> moved_saucer(#[trigger] s1[i], s0, dt)
    &&& ids_distinct(s0) ==> ids_distinct(s1)
    &&& b1.len() >= b0.len()
    &&& b1.take(b0.len() as int) == b0
    &&& forall|i: int| b0.len() <= i < b1.len() ==> saucer_shot(#[trigger] b1[i], s0)
}

/// `a1` is `a0` with a new largest-tier asteroid in `color` appended, on
/// the top or bottom edge.
pub open spec fn asteroid_appended(a0: Seq<Asteroid>, a1: Seq<Asteroid>, color: Color) -> bool {
    &&& a1.len() == a0.len() + 1
    &&& a1.drop_last() == a0
    &&& a1.last().size_level == 3 && a1.last().alive && a1.last().color == color
    &&& -UNIT <= a1.last().x < UNIT
    &&& a1.last().y == WRAP_LIMIT || a1.last().y == -WRAP_LIMIT
}

/// `g` is `old` after the frame's timers advance by `dt` and the spawn
/// governors act: a largest-tier asteroid when its timer is past its
/// period and the field is below its cap, a saucer with the next tag when
/// its timer is past its period and fewer than `MAX_SAUCERS` are alive.
pub open spec fn spawned(old: GameState, g: GameState, dt: int) -> bool {
    let ta = advanced(old.time_since_asteroid_spawn as int, dt);
    let due_a = ta > ASTEROID_PERIOD && old.asteroids@.len() < old.max_asteroids;
    let ts = advanced(old.time_since_saucer_spawn as int, dt);
    let due_s = ts > SAUCER_PERIOD && old.saucers@.len() < MAX_SAUCERS && old.saucer_id_counter < usize::MAX;
    &&& g.time_since_last_death == advanced(old.time_since_last_death as int, dt)
    &&& g.time_since_asteroid_spawn == if due_a { 0 } else { ta }
    &&& g.time_since_saucer_spawn == if due_s { 0 } else { ts }
    &&& if due_a { asteroid_appended(old.asteroids@, g.asteroids@, old.game_color) } else { g.asteroids@ == old.asteroids@ }
    &&& if due_s {
        &&& g.saucers@.len() == old.saucers@.len() + 1
        &&& g.saucers@.drop_last() == old.saucers@
        &&& g.saucers@.last().id == old.saucer_id_counter && g.saucers@.last().alive
        &&& g.saucer_id_counter == old.saucer_id_counter + 1
    } else {
        g.saucers@ == old.saucers@ && g.saucer_id_counter == old.saucer_id_counter
    }
    &&& g.player_ship == old.player_ship && g.bullets@ == old.bullets@ && g.score == old.score
    &&& g.deaths_in_short_time == old.deaths_in_short_time && g.max_asteroids == old.max_asteroids
    &&& g.width == old.width && g.height == old.height
    &&& g.game_color == old.game_color && g.hud_color == old.hud_color
}

/// `t` lists the positions of the asteroids of `g`, then of its saucers.
pub open spec fn threat_list(g: GameState, t: Seq<(i64, i64)>) -> bool {
    &&& t.len() == g.asteroids@.len() + g.saucers@.len()
    &&& forall|i: int| 0 <= i < g.asteroids@.len() ==> #[trigger] t[i] == (g.asteroids@[i].x, g.asteroids@[i].y)
    &&& forall|i: int| 0 <= i < g.saucers@.len() ==>
        #[trigger] t[g.asteroids@.len() + i] == (g.saucers@[i].x, g.saucers@[i].y)
}

/// The pilot, given the threats `t` of `g`, leaves the ship as `s`.
pub open spec fn piloted_among(g: GameState, t: Seq<(i64, i64)>, s: Ship, dt: int) -> bool {
    threat_list(g, t) && piloted(g.player_ship, s, t, dt)
}

/// `g2` is `g1` after the pilot's turn and the ship's burst check: a shot
/// that is due leaves the ship's nose.
pub open spec fn frame_fire(g1: GameState, g2: GameState, dt: int) -> bool {
    exists|t: Seq<(i64, i64)>, s: Ship| #[trigger] piloted_among(g1, t, s, dt) && {
        &&& g2.player_ship == burst_of(s)
        &&& g2.bullets@ == if burst_ready(s.burst_count, s.burst_cooldown as int, s.energy as int) {
            g1.bullets@.push(ship_bullet(burst_of(s), g1.game_color))
        } else {
            g1.bullets@
        }
        &&& g2 == (GameState { player_ship: g2.player_ship, bullets: g2.bullets, ..g1 })
    }
}

/// `g3` is `g2` after saucers move and fire, then projectiles and asteroids
/// move; spent projectiles and departed saucers leave.
pub open spec fn moved(g2: GameState, g3: GameState, dt: int) -> bool {
    exists|bm: Seq<Bullet>| #[trigger] saucers_advanced(g2.saucers@, g2.bullets@, g3.saucers@, bm, dt) && {
        &&& g3.bullets@ == bm.map_values(|b: Bullet| bullet_step(b, dt)).filter(live_bullet())
        &&& g3.asteroids@.len() == g2.asteroids@.len()
        &&& forall|k: int| 0 <= k < g3.asteroids@.len() ==>
            #[trigger] g3.asteroids@[k] == asteroid_step(g2.asteroids@[k], dt)
        &&& g3 == (GameState { saucers: g3.saucers, bullets: g3.bullets, asteroids: g3.asteroids, ..g2 })
    }
}

/// `g5` is `g4` with the ship, projectiles and asteroids wrapped around the
/// playfield; saucers are not wrapped.
pub open spec fn wrapped_from(g4: GameState, g5: GameState) -> bool {
    &&& g5.player_ship == (Ship {
        x: wrapped(g4.player_ship.x as int) as i64,
        y: wrapped(g4.player_ship.y as int) as i64,
        ..g4.player_ship
    })
    &&& g5.bullets@.len() == g4.bullets@.len()
    &&& forall|k: int| 0 <= k < g5.bullets@.len() ==> #[trigger] g5.bullets@[k] == (Bullet {
        x: wrapped(g4.bullets@[k].x as int) as i64,
        y: wrapped(g4.bullets@[k].y as int) as i64,
        ..g4.bullets@[k]
    })
    &&& g5.asteroids@.len() == g4.asteroids@.len()
    &&& forall|k: int| 0 <= k < g5.asteroids@.len() ==> #[trigger] g5.asteroids@[k] == (Asteroid {
        x: wrapped(g4.asteroids@[k].x as int) as i64,
        y: wrapped(g4.asteroids@[k].y as int) as i64,
        ..g4.asteroids@[k]
    })
    &&& g5 == (GameState { player_ship: g5.player_ship, bullets: g5.bullets, asteroids: g5.asteroids, ..g4 })
}

/// The steps of one frame, through intermediate states `g1` to `g4`.
pub open spec fn frame_chain(
    old: GameState,
    g1: GameState,
    g2: GameState,
    g3: GameState,
    g4: GameState,
    died: bool,
    new: GameState,
    dt: int,
) -> bool {
    &&& spawned(old, g1, dt)
    &&& frame_fire(g1, g2, dt)
    &&& moved(g2, g3, dt)
    &&& collision_outcome(g3, g4, died)
    &&& wrapped_from(g4, new)
}

/// One frame of `dt` microseconds takes `old` to `new`; a step of zero or
/// less is a frame in which nothing happens.
pub open spec fn frame_outcome(old: GameState, new: GameState, dt: int) -> bool {
    if dt <= 0 {
        new == old
    } else {
        exists|g1: GameState, g2: GameState, g3: GameState, g4: GameState, died: bool|
            #[trigger] frame_chain(old, g1, g2, g3, g4, died, new, dt)
    }
}

/// The projectile-asteroid pass takes projectiles `b0` and asteroids `a0`
/// to `b1` and `a1` (only liveness changes) and leaves children `kids`:
/// afterwards no live projectile overlaps a live asteroid, every projectile
/// or asteroid destroyed overlapped a live one of the other kind, and the
/// children are those of the destroyed asteroids, in hit order.
pub open spec fn asteroid_pass(
    b0: Seq<Bullet>,
    a0: Seq<Asteroid>,
    b1: Seq<Bullet>,
    a1: Seq<Asteroid>,
    kids: Seq<Asteroid>,
) -> bool {
    &&& b1.len() == b0.len()
    &&& a1.len() == a0.len()
    &&& forall|k: int| 0 <= k < b1.len() ==> {
        &&& #[trigger] b1[k] == (Bullet { alive: b1[k].alive, ..b0[k] })
        &&& b1[k].alive ==> b0[k].alive
        &&& !b1[k].alive && b0[k].alive ==> exists|j: int|
            0 <= j < a0.len() && a0[j].alive && #[trigger] hits_asteroid(b0[k], a0[j])
    }
    &&& forall|j: int| 0 <= j < a1.len() ==> {
        &&& #[trigger] a1[j] == (Asteroid { alive: a1[j].alive, ..a0[j] })
        &&& a1[j].alive ==> a0[j].alive
        &&& !a1[j].alive && a0[j].alive ==> exists|k: int|
            0 <= k < b0.len() && b0[k].alive && #[trigger] hits_asteroid(b0[k], a0[j])
    }
    &&& forall|k: int, j: int|
        0 <= k < b1.len() && 0 <= j < a1.len() && b1[k].alive && a1[j].alive
            ==> !#[trigger] hits_asteroid(b1[k], a1[j])
    &&& exists|order: Seq<int>| #[trigger] children_follow(kids, a0, a1, order)
}

/// The projectile-saucer pass takes projectiles `b0` and saucers `s0` to
/// `b1` and `s1` (only liveness changes): afterwards no live projectile
/// overlaps a live saucer it may harm, and every projectile or saucer
/// destroyed overlapped a live one of the other kind, the saucer not being
/// the projectile's firer.
pub open spec fn saucer_pass(b0: Seq<Bullet>, s0: Seq<Saucer>, b1: Seq<Bullet>, s1: Seq<Saucer>) -> bool {
    &&& b1.len() == b0.len()
    &&& s1.len() == s0.len()
    &&& forall|k: int| 0 <= k < b1.len() ==> {
        &&& #[trigger] b1[k] == (Bullet { alive: b1[k].alive, ..b0[k] })
        &&& b1[k].alive ==> b0[k].alive
        &&& !b1[k].alive && b0[k].alive ==> exists|j: int|
            0 <= j < s0.len() && s0[j].alive && #[trigger] hits_saucer(b0[k], s0[j])
    }
    &&& forall|j: int| 0 <= j < s1.len() ==> {
        &&& #[trigger] s1[j] == (Saucer { alive: s1[j].alive, ..s0[j] })
        &&& s1[j].alive ==> s0[j].alive
        &&& !s1[j].alive && s0[j].alive ==> exists|k: int|
            0 <= k < b0.len() && b0[k].alive && #[trigger] hits_saucer(b0[k], s0[j])
    }
    &&& forall|k: int, j: int|
        0 <= k < b1.len() && 0 <= j < s1.len() && b1[k].alive && s1[j].alive
            ==> !#[trigger] hits_saucer(b1[k], s1[j])
}

/// The score after winning `points`, saturating at `u32::MAX`.
pub open spec fn score_after(score: int, points: int) -> int {
    if score + points > u32::MAX {
        u32::MAX as int
    } else {
        score + points
    }
}

/// Fields that collision resolution never touches are the same in `new`.
pub open spec fn others_kept(old: GameState, new: GameState) -> bool {
    &&& new.time_since_saucer_spawn == old.time_since_saucer_spawn
    &&& new.saucer_id_counter == old.saucer_id_counter
    &&& new.max_asteroids == old.max_asteroids
    &&& new.width == old.width && new.height == old.height
    &&& new.game_color == old.game_color && new.hud_color == old.hud_color
}

/// `new` is `old` after the ship died with asteroids `a`, projectiles `b`
/// and saucers `s` on the field: the ship respawns, the death counts toward
/// the death loop (which may clear asteroids and projectiles), and the
/// score is unchanged.
pub open spec fn died_with(old: GameState, new: GameState, a: Seq<Asteroid>, b: Seq<Bullet>, s: Seq<Saucer>) -> bool {
    let (count, cleared) = death_outcome(old.deaths_in_short_time as int, old.time_since_last_death as int);
    &&& new.player_ship == respawn_of(old.player_ship)
    &&& new.time_since_last_death == 0
    &&& new.deaths_in_short_time == count
    &&& new.score == old.score
    &&& if cleared { new.asteroids@.len() == 0 } else { new.asteroids@ == a }
    &&& if cleared { new.bullets@.len() == 0 } else { new.bullets@ == b }
    &&& new.saucers@ == s
    &&& new.time_since_asteroid_spawn == if cleared { SPAWN_GRACE } else { old.time_since_asteroid_spawn }
    &&& others_kept(old, new)
}

/// `new` is `old` with asteroids `a`, projectiles `b`, saucers `s`, the
/// ship alive and `points` added to the score.
pub open spec fn survived_with(
    old: GameState,
    new: GameState,
    a: Seq<Asteroid>,
    b: Seq<Bullet>,
    s: Seq<Saucer>,
    points: int,
) -> bool {
    &&& new.player_ship == old.player_ship
    &&& new.asteroids@ == a && new.bullets@ == b && new.saucers@ == s
    &&& new.score == score_after(old.score as int, points)
    &&& new.time_since_last_death == old.time_since_last_death
    &&& new.deaths_in_short_time == old.deaths_in_short_time
    &&& new.time_since_asteroid_spawn == old.time_since_asteroid_spawn
    &&& others_kept(old, new)
}

/// Saucer `k` is the first of `s` that touches the ship of `g`.
pub open spec fn first_saucer_touch(g: GameState, s: Seq<Saucer>, k: int) -> bool {
    0 <= k < s.len() && g.touches_saucer(s[k]) && forall|m: int| 0 <= m < k ==> !g.touches_saucer(#[trigger] s[m])
}

/// Projectile `k` is the first of `b` that hits the ship of `g`.
pub open spec fn first_enemy_hit(g: GameState, b: Seq<Bullet>, k: int) -> bool {
    0 <= k < b.len() && g.enemy_fire_hits(b[k]) && forall|m: int| 0 <= m < k ==> !g.enemy_fire_hits(#[trigger] b[m])
}

/// One frame's collision resolution takes `old` to `new`, `died` telling
/// whether the ship died: projectiles against asteroids (dead asteroids
/// leave, their children join the end); if a live asteroid then touches the
/// ship it dies; else projectiles against saucers; then the first saucer
/// touching the ship dies with it; else the first enemy projectile hitting
/// the ship is spent and the ship dies; else the frame's points are scored.
pub open spec fn collision_outcome(old: GameState, new: GameState, died: bool) -> bool {
    exists|b1: Seq<Bullet>, a1: Seq<Asteroid>, kids: Seq<Asteroid>|
        #[trigger] asteroid_pass(old.bullets@, old.asteroids@, b1, a1, kids) && {
            let a2 = a1.filter(live_asteroid()) + kids;
            if exists|j: int| 0 <= j < a2.len() && old.touches_asteroid(#[trigger] a2[j]) {
                died && died_with(old, new, a2, b1, old.saucers@)
            } else {
                exists|b2: Seq<Bullet>, s1: Seq<Saucer>| #[trigger] saucer_pass(b1, old.saucers@, b2, s1) && {
                    if exists|k: int| #[trigger] first_saucer_touch(old, s1, k) {
                        died && exists|k: int| #[trigger] first_saucer_touch(old, s1, k)
                            && died_with(old, new, a2, b2, s1.update(k, Saucer { alive: false, ..s1[k] }))
                    } else if exists|k: int| #[trigger] first_enemy_hit(old, b2, k) {
                        died && exists|k: int| #[trigger] first_enemy_hit(old, b2, k)
                            && died_with(old, new, a2, b2.update(k, Bullet { alive: false, ..b2[k] }), s1)
                    } else {
                        !died && survived_with(old, new, a2, b2, s1,
                            saturated(saturated(bounty(old.asteroids@, a1, a1.len() as int))
                                + saturated(saucer_bounty(old.saucers@, s1, s1.len() as int))))
                    }
                }
            }
        }
}

/// A projectile overlaps an asteroid.
pub open spec fn hits_asteroid(b: Bullet, a: Asteroid) -> bool {
    dist2(b.x as int, b.y as int, a.x as int, a.y as int) < a.size * a.size
}

/// `c` is a live child that asteroid `a` leaves when destroyed.
pub open spec fn child_of(c: Asteroid, a: Asteroid) -> bool {
    &&& c.size_level == a.size_level - 1
    &&& c.y == a.y
    &&& c.x == a.x + SPLIT_OFFSET || c.x == a.x - SPLIT_OFFSET
    &&& c.color == a.color
    &&& c.alive
    &&& c.wf()
}

/// Sum of `w` over the asteroids among the first `n` that are alive in
/// `before` and dead in `after`.
pub open spec fn tally(before: Seq<Asteroid>, after: Seq<Asteroid>, n: int, w: spec_fn(Asteroid) -> int) -> int
    decreases n,
{
    if n <= 0 {
        0
    } else {
        tally(before, after, n - 1, w) + if before[n - 1].alive && !after[n - 1].alive {
            w(before[n - 1])
        } else {
            0
        }
    }
}

/// Points for the asteroids that are alive in `before` and dead in `after`.
pub open spec fn bounty(before: Seq<Asteroid>, after: Seq<Asteroid>, n: int) -> int {
    tally(before, after, n, |a: Asteroid| points_of(a.size_level as int))
}

/// How many of the asteroids alive in `before` and dead in `after` split.
pub open spec fn splits(before: Seq<Asteroid>, after: Seq<Asteroid>, n: int) -> int {
    tally(before, after, n, |a: Asteroid| if a.size_level > 1 { 1int } else { 0int })
}

/// `c` is the child asteroid `a` leaves on the side `side` (1 or -1).
pub open spec fn child_at(c: Asteroid, a: Asteroid, side: int) -> bool {
    child_of(c, a) && c.x == a.x + side * SPLIT_OFFSET
}

/// The children `kids` are those of the asteroids destroyed between
/// `before` and `after` that split, in the order `order` in which they were
/// hit: two per asteroid, first on the +x side, then on the -x side.
pub open spec fn children_follow(kids: Seq<Asteroid>, before: Seq<Asteroid>, after: Seq<Asteroid>, order: Seq<int>) -> bool {
    &&& kids.len() == 2 * order.len()
    &&& order.len() == splits(before, after, before.len() as int)
    &&& forall|p: int| 0 <= p < order.len() ==> {
        &&& 0 <= #[trigger] order[p] < before.len()
        &&& before[order[p]].alive && !after[order[p]].alive && before[order[p]].size_level > 1
        &&& child_at(kids[2 * p], before[order[p]], 1)
        &&& child_at(kids[2 * p + 1], before[order[p]], -1)
    }
    &&& forall|p: int, q: int| 0 <= p < q < order.len() ==> #[trigger] order[p] != #[trigger] order[q]
}

/// `v` saturated to the range of `u64`.
pub open spec fn saturated(v: int) -> int {
    if v > u64::MAX {
        u64::MAX as int
    } else {
        v
    }
}

proof fn lemma_tally_kill(
    before: Seq<Asteroid>,
    mid: Seq<Asteroid>,
    after: Seq<Asteroid>,
    j: int,
    n: int,
    w: spec_fn(Asteroid) -> int,
)
    requires
        0 <= j < n,
        n <= before.len(),
        mid.len() == before.len(),
        before[j].alive,
        mid[j].alive,
        !after[j].alive,
        after.len() == mid.len(),
        forall|m: int| 0 <= m < mid.len() && m != j ==> after[m] == mid[m],
    ensures
        tally(before, after, n, w) == tally(before, mid, n, w) + w(before[j]),
    decreases n,
{
    if n - 1 > j {
        lemma_tally_kill(before, mid, after, j, n - 1, w);
    } else {
        lemma_tally_same(before, mid, after, j, w);
    }
}

proof fn lemma_tally_none(a: Seq<Asteroid>, n: int, w: spec_fn(Asteroid) -> int)
    requires
        0 <= n <= a.len(),
    ensures
        tally(a, a, n, w) == 0,
    decreases n,
{
    if n > 0 {
        lemma_tally_none(a, n - 1, w);
    }
}

proof fn lemma_tally_same(
    before: Seq<Asteroid>,
    mid: Seq<Asteroid>,
    after: Seq<Asteroid>,
    n: int,
    w: spec_fn(Asteroid) -> int,
)
    requires
        0 <= n <= before.len(),
        mid.len() == before.len(),
        after.len() == mid.len(),
        forall|m: int| 0 <= m < n ==> after[m] == mid[m],
    ensures
        tally(before, after, n, w) == tally(before, mid, n, w),
    decreases n,
{
    if n > 0 {
        lemma_tally_same(before, mid, after, n - 1, w);
    }
}

/// Saucer `s` is `o` moved for `dt`, with its size, identity and color.
pub open spec fn moved_from(s: Saucer, o: Saucer, dt: int) -> bool {
    &&& s.x == o.x + crate::fixed::scaled(o.vx as int, dt)
    &&& s.y == o.y + crate::fixed::scaled(o.vy as int, dt)
    &&& s.vx == o.vx
    &&& s.size == o.size && s.id == o.id && s.color == o.color
}

/// Saucer `s` is one of `old` moved for `dt`.
pub open spec fn moved_saucer(s: Saucer, old: Seq<Saucer>, dt: int) -> bool {
    exists|j: int| 0 <= j < old.len() && #[trigger] moved_from(s, old[j], dt)
}

/// A fresh projectile fired by one of the saucers.
pub open spec fn saucer_shot(b: Bullet, saucers: Seq<Saucer>) -> bool {
    &&& b.alive && b.lifetime == crate::bullet::BULLET_LIFETIME
    &&& exists|j: int| 0 <= j < saucers.len() && #[trigger] saucers[j].id == b.owner_id
}

/// Whether a projectile is still in flight.
pub open spec fn live_bullet() -> spec_fn(Bullet) -> bool {
    |b: Bullet| b.alive
}

/// Whether an asteroid is still in play.
pub open spec fn live_asteroid() -> spec_fn(Asteroid) -> bool {
    |a: Asteroid| a.alive
}

/// A projectile overlaps a saucer that did not fire it.
pub open spec fn hits_saucer(b: Bullet, s: Saucer) -> bool {
    b.owner_id != s.id && dist2(b.x as int, b.y as int, s.x as int, s.y as int)
        < (body_size(s.size) * 3 / 2) * (body_size(s.size) * 3 / 2)
}

/// Points for the saucers among the first `n` that are alive in `before`
/// and dead in `after`.
pub open spec fn saucer_bounty(before: Seq<Saucer>, after: Seq<Saucer>, n: int) -> int
    decreases n,
{
    if n <= 0 {
        0
    } else {
        saucer_bounty(before, after, n - 1) + if before[n - 1].alive && !after[n - 1].alive {
            saucer_points_of(before[n - 1].size)
        } else {
            0
        }
    }
}

proof fn lemma_saucer_bounty_none(a: Seq<Saucer>, n: int)
    requires
        0 <= n <= a.len(),
    ensures
        saucer_bounty(a, a, n) == 0,
    decreases n,
{
    if n > 0 {
        lemma_saucer_bounty_none(a, n - 1);
    }
}

proof fn lemma_saucer_bounty_same(before: Seq<Saucer>, mid: Seq<Saucer>, after: Seq<Saucer>, n: int)
    requires
        0 <= n <= before.len(),
        mid.len() == before.len(),
        after.len() == mid.len(),
        forall|m: int| 0 <= m < n ==> after[m] == mid[m],
    ensures
        saucer_bounty(before, after, n) == saucer_bounty(before, mid, n),
    decreases n,
{
    if n > 0 {
        lemma_saucer_bounty_same(before, mid, after, n - 1);
    }
}

proof fn lemma_saucer_bounty_kill(before: Seq<Saucer>, mid: Seq<Saucer>, after: Seq<Saucer>, j: int, n: int)
    requires
        0 <= j < n,
        n <= before.len(),
        mid.len() == before.len(),
        before[j].alive,
        mid[j].alive,
        !after[j].alive,
        after.len() == mid.len(),
        forall|m: int| 0 <= m < mid.len() && m != j ==> after[m] == mid[m],
    ensures
        saucer_bounty(before, after, n) == saucer_bounty(before, mid, n) + saucer_points_of(before[j].size),
    decreases n,
{
    if n - 1 > j {
        lemma_saucer_bounty_kill(before, mid, after, j, n - 1);
    } else {
        lemma_saucer_bounty_same(before, mid, after, j);
    }
}

/// `r * r` for a radius of at most one unit.
fn square(r: i64) -> (s: i128)
    requires
        0 <= r <= UNIT,
    ensures
        s == r * r,
{
    assert(0 <= r * r <= UNIT * UNIT) by (nonlinear_arith)
        requires 0 <= r <= UNIT;
    (r as i128) * (r as i128)
}

/// A timer after `dt` more microseconds.
fn advance_timer(t: i64, dt: i64) -> (r: i64)
    requires
        SPAWN_GRACE <= t <= TIMER_CAP,
        0 <= dt <= DT_LIMIT,
    ensures
        r == advanced(t as int, dt as int),
        SPAWN_GRACE <= r <= TIMER_CAP,
        r >= t,
{
    if t > TIMER_CAP - dt {
        TIMER_CAP
    } else {
        t + dt
    }
}

/// The whole simulation.
pub struct GameState {
    pub player_ship: Ship,
    pub saucers: Vec<Saucer>,
    pub asteroids: Vec<Asteroid>,
    pub bullets: Vec<Bullet>,
    /// Size of the display in pixels, for presentation only.
    pub width: u32,
    pub height: u32,
    pub score: u32,
    pub time_since_asteroid_spawn: i64,
    pub time_since_saucer_spawn: i64,
    pub saucer_id_counter: usize,
    /// Deaths in quick succession so far.
    pub deaths_in_short_time: u32,
    pub time_since_last_death: i64,
    pub max_asteroids: usize,
    /// Color of gameplay entities.
    pub game_color: Color,
    /// Color of the status display.
    pub hud_color: Color,
}

impl GameState {
    /// Every entity is well formed and within `limit` of the centre.
    pub open spec fn bounded(&self, limit: int) -> bool {
        &&& self.player_ship.wf()
        &&& within(self.player_ship.x, self.player_ship.y, limit)
        &&& bullets_ok(self.bullets@, limit)
        &&& asteroids_ok(self.asteroids@, limit)
        &&& saucers_ok(self.saucers@, limit)
    }

    /// Timers and counters in range.
    pub open spec fn counters_ok(&self) -> bool {
        &&& SPAWN_GRACE <= self.time_since_asteroid_spawn <= TIMER_CAP
        &&& 0 <= self.time_since_saucer_spawn <= TIMER_CAP
        &&& 0 <= self.time_since_last_death <= TIMER_CAP
        &&& self.deaths_in_short_time < DEATHS_TO_CLEAR
    }

    /// At most `MAX_SAUCERS` saucers, with distinct identity tags from 1 up
    /// to (not including) the next tag to hand out.
    pub open spec fn saucers_registered(&self) -> bool {
        &&& self.saucers@.len() <= MAX_SAUCERS
        &&& self.saucer_id_counter >= 1
        &&& ids_distinct(self.saucers@)
        &&& forall|i: int| 0 <= i < self.saucers@.len() ==>
            1 <= (#[trigger] self.saucers@[i]).id < self.saucer_id_counter
    }

    /// The state's invariant between frames.
    pub open spec fn wf(&self) -> bool {
        self.bounded(PLAY_LIMIT as int) && self.counters_ok() && self.saucers_registered()
    }

    /// A new game: the ship at rest in the centre, nothing else on the
    /// field, score 0.
    pub fn new() -> (g: GameState)
        ensures
            g.wf(),
            g.player_ship == Ship::new_spec(0, 0, Color { r: 0, g: 255, b: 84, a: 255 }, SHIP_ID),
            g.saucers@.len() == 0 && g.asteroids@.len() == 0 && g.bullets@.len() == 0,
            g.score == 0,
            g.width == 1920 && g.height == 1080,
            g.time_since_asteroid_spawn == 0 && g.time_since_saucer_spawn == 0,
            g.saucer_id_counter == 1,
            g.deaths_in_short_time == 0 && g.time_since_last_death == 10 * UNIT,
            g.max_asteroids == 12,
            g.game_color == (Color { r: 0, g: 255, b: 84, a: 255 }),
            g.hud_color == (Color { r: 153, g: 153, b: 153, a: 255 }),
    {
        let game_color = Color::arcade_green();
        let hud_color = Color::grey();
        GameState {
            player_ship: Ship::new(0, 0, game_color, SHIP_ID),
            saucers: Vec::new(),
            asteroids: Vec::new(),
            bullets: Vec::new(),
            width: 1920,
            height: 1080,
            score: 0,
            time_since_asteroid_spawn: 0,
            time_since_saucer_spawn: 0,
            saucer_id_counter: 1,
            deaths_in_short_time: 0,
            time_since_last_death: 10 * UNIT,
            max_asteroids: 12,
            game_color,
            hud_color,
        }
    }

    /// Records a death: counts it toward the death loop, clears the field
    /// after three quick deaths, and respawns the ship.
    pub fn handle_player_death(&mut self)
        requires
            old(self).player_ship.wf(),
            old(self).counters_ok(),
        ensures
            final(self).counters_ok(),
            ({
                let (count, cleared) = death_outcome(
                    old(self).deaths_in_short_time as int,
                    old(self).time_since_last_death as int,
                );
                &&& final(self).deaths_in_short_time == count
                &&& cleared ==> {
                    &&& final(self).asteroids@.len() == 0
                    &&& final(self).bullets@.len() == 0
                    &&& final(self).time_since_asteroid_spawn == SPAWN_GRACE
                }
                &&& !cleared ==> {
                    &&& final(self).asteroids@ == old(self).asteroids@
                    &&& final(self).bullets@ == old(self).bullets@
                    &&& final(self).time_since_asteroid_spawn == old(self).time_since_asteroid_spawn
                }
            }),
            final(self).time_since_last_death == 0,
            final(self).player_ship == respawn_of(old(self).player_ship),
            final(self).saucers@ == old(self).saucers@,
            final(self).score == old(self).score,
            final(self).time_since_saucer_spawn == old(self).time_since_saucer_spawn,
            final(self).saucer_id_counter == old(self).saucer_id_counter,
            final(self).max_asteroids == old(self).max_asteroids,
            final(self).width == old(self).width && final(self).height == old(self).height,
            final(self).game_color == old(self).game_color && final(self).hud_color == old(self).hud_color,
    {
        if self.time_since_last_death < DEATH_WINDOW {
            self.deaths_in_short_time = self.deaths_in_short_time + 1;
        } else {
            self.deaths_in_short_time = 1;
        }
        self.time_since_last_death = 0;
        if self.deaths_in_short_time >= DEATHS_TO_CLEAR {
            self.clear_asteroid_field();
            self.deaths_in_short_time = 0;
        }
        self.player_ship.respawn();
    }

    /// Removes every asteroid and projectile and delays the next asteroid.
    pub fn clear_asteroid_field(&mut self)
        ensures
            final(self).asteroids@.len() == 0,
            final(self).bullets@.len() == 0,
            final(self).time_since_asteroid_spawn == SPAWN_GRACE,
            final(self).player_ship == old(self).player_ship,
            final(self).saucers@ == old(self).saucers@,
            final(self).score == old(self).score,
            final(self).time_since_saucer_spawn == old(self).time_since_saucer_spawn,
            final(self).time_since_last_death == old(self).time_since_last_death,
            final(self).deaths_in_short_time == old(self).deaths_in_short_time,
            final(self).saucer_id_counter == old(self).saucer_id_counter,
            final(self).max_asteroids == old(self).max_asteroids,
            final(self).width == old(self).width && final(self).height == old(self).height,
            final(self).game_color == old(self).game_color && final(self).hud_color == old(self).hud_color,
    {
        self.asteroids.clear();
        self.bullets.clear();
        self.time_since_asteroid_spawn = SPAWN_GRACE;
    }

    /// Adds a largest-tier asteroid at a random place on the top or bottom
    /// edge.
    pub fn spawn_asteroid(&mut self)
        requires
            old(self).bounded(PLAY_LIMIT as int),
        ensures
            final(self).bounded(PLAY_LIMIT as int),
            final(self).asteroids@.len() == old(self).asteroids@.len() + 1,
            final(self).asteroids@.drop_last() == old(self).asteroids@,
            ({
                let a = final(self).asteroids@.last();
                &&& a.size_level == 3 && a.alive && a.color == old(self).game_color
                &&& -UNIT <= a.x < UNIT
                &&& a.y == WRAP_LIMIT || a.y == -WRAP_LIMIT
            }),
            *final(self) == (GameState { asteroids: final(self).asteroids, ..*old(self) }),
    {
        let x = roll_between(-UNIT, UNIT);
        let y = if roll(2) == 0 { -WRAP_LIMIT } else { WRAP_LIMIT };
        let a = Asteroid::new(x, y, 3, self.game_color);
        self.asteroids.push(a);
        assert(self.asteroids@.drop_last() =~= old(self).asteroids@);
    }

    /// Adds a saucer at a random edge, large seven times in ten, with the
    /// next identity tag.
    pub fn spawn_saucer(&mut self)
        requires
            old(self).bounded(PLAY_LIMIT as int),
        ensures
            final(self).bounded(PLAY_LIMIT as int),
            final(self).saucers@.len() == old(self).saucers@.len() + 1,
            final(self).saucers@.drop_last() == old(self).saucers@,
            ({
                let s = final(self).saucers@.last();
                &&& s.id == old(self).saucer_id_counter && s.alive && s.color == old(self).game_color
            }),
            final(self).saucer_id_counter == if old(self).saucer_id_counter < usize::MAX {
                old(self).saucer_id_counter + 1
            } else {
                old(self).saucer_id_counter as int
            },
            *final(self) == (GameState {
                saucers: final(self).saucers,
                saucer_id_counter: final(self).saucer_id_counter,
                ..*old(self)
            }),
    {
        let size = if chance(7, 10) { SaucerSize::Large } else { SaucerSize::Small };
        let s = Saucer::new(size, self.saucer_id_counter, self.game_color);
        self.saucers.push(s);
        assert(self.saucers@.drop_last() =~= old(self).saucers@);
        self.saucer_id_counter = self.saucer_id_counter.saturating_add(1);
    }


    /// Projectiles against asteroids: each live projectile destroys the
    /// first live asteroid it overlaps, in order, and is spent. Afterwards
    /// no live projectile overlaps a live asteroid, every projectile or
    /// asteroid destroyed overlapped a live one of the other kind, and the
    /// points are those of the asteroids destroyed. Returns the points and
    /// the children of the destroyed asteroids.
    pub fn mark_asteroid_hits(&mut self) -> (r: (u64, Vec<Asteroid>))
        requires
            old(self).bounded(FRAME_LIMIT as int),
        ensures
            final(self).bounded(FRAME_LIMIT as int),
            asteroid_pass(old(self).bullets@, old(self).asteroids@, final(self).bullets@, final(self).asteroids@, r.1@),
            r.0 == saturated(bounty(old(self).asteroids@, final(self).asteroids@, old(self).asteroids@.len() as int)),
            *final(self) == (GameState { bullets: final(self).bullets, asteroids: final(self).asteroids, ..*old(self) }),
    {
        let ghost ob = self.bullets@;
        let ghost oa = self.asteroids@;
        let mut children: Vec<Asteroid> = Vec::new();
        let mut points: u64 = 0;
        let nb = self.bullets.len();
        let na = self.asteroids.len();
        let ghost mut order: Seq<int> = Seq::empty();
        proof {
            lemma_tally_none(oa, na as int, |a: Asteroid| points_of(a.size_level as int));
            lemma_tally_none(oa, na as int, |a: Asteroid| if a.size_level > 1 { 1int } else { 0int });
        }
        let mut i: usize = 0;
        while i < nb
            invariant
                0 <= i <= nb,
                self.bullets@.len() == nb,
                self.asteroids@.len() == na,
                ob == old(self).bullets@,
                oa == old(self).asteroids@,
                ob.len() == nb,
                oa.len() == na,
                old(self).bounded(FRAME_LIMIT as int),
                forall|k: int| 0 <= k < nb ==> {
                    &&& #[trigger] self.bullets@[k] == (Bullet { alive: self.bullets@[k].alive, ..ob[k] })
                    &&& self.bullets@[k].alive ==> ob[k].alive
                    &&& !self.bullets@[k].alive && ob[k].alive ==> exists|j: int|
                        0 <= j < na && oa[j].alive && #[trigger] hits_asteroid(ob[k], oa[j])
                },
                forall|j: int| 0 <= j < na ==> {
                    &&& #[trigger] self.asteroids@[j] == (Asteroid { alive: self.asteroids@[j].alive, ..oa[j] })
                    &&& self.asteroids@[j].alive ==> oa[j].alive
                    &&& !self.asteroids@[j].alive && oa[j].alive ==> exists|k: int|
                        0 <= k < nb && ob[k].alive && #[trigger] hits_asteroid(ob[k], oa[j])
                },
                forall|k: int, j: int|
                    0 <= k < i && 0 <= j < na && self.bullets@[k].alive && self.asteroids@[j].alive
                        ==> !#[trigger] hits_asteroid(ob[k], oa[j]),
                points == saturated(bounty(oa, self.asteroids@, na as int)),
                children_follow(children@, oa, self.asteroids@, order),
                *self == (GameState { bullets: self.bullets, asteroids: self.asteroids, ..*old(self) }),
            decreases nb - i,
        {
            let mut j: usize = 0;
            while j < na
                invariant
                    0 <= i < nb,
                    0 <= j <= na,
                    self.bullets@.len() == nb,
                    self.asteroids@.len() == na,
                    ob == old(self).bullets@,
                    oa == old(self).asteroids@,
                    ob.len() == nb,
                    oa.len() == na,
                    old(self).bounded(FRAME_LIMIT as int),
                    forall|k: int| 0 <= k < nb ==> {
                        &&& #[trigger] self.bullets@[k] == (Bullet { alive: self.bullets@[k].alive, ..ob[k] })
                        &&& self.bullets@[k].alive ==> ob[k].alive
                        &&& !self.bullets@[k].alive && ob[k].alive ==> exists|j: int|
                            0 <= j < na && oa[j].alive && #[trigger] hits_asteroid(ob[k], oa[j])
                    },
                    forall|m: int| 0 <= m < na ==> {
                        &&& #[trigger] self.asteroids@[m] == (Asteroid { alive: self.asteroids@[m].alive, ..oa[m] })
                        &&& self.asteroids@[m].alive ==> oa[m].alive
                        &&& !self.asteroids@[m].alive && oa[m].alive ==> exists|k: int|
                            0 <= k < nb && ob[k].alive && #[trigger] hits_asteroid(ob[k], oa[m])
                    },
                    forall|k: int, m: int|
                        0 <= k < i && 0 <= m < na && self.bullets@[k].alive && self.asteroids@[m].alive
                            ==> !#[trigger] hits_asteroid(ob[k], oa[m]),
                    self.bullets@[i as int].alive ==> forall|m: int|
                        0 <= m < j && self.asteroids@[m].alive ==> !#[trigger] hits_asteroid(ob[i as int], oa[m]),
                    points == saturated(bounty(oa, self.asteroids@, na as int)),
                    children_follow(children@, oa, self.asteroids@, order),
                    *self == (GameState { bullets: self.bullets, asteroids: self.asteroids, ..*old(self) }),
                decreases na - j,
            {
                let b = self.bullets[i];
                let a = self.asteroids[j];
                assert(ob[i as int].wf() && oa[j as int].wf());
                assert(0 <= a.size <= 150_000);
                if b.alive && a.alive {
                    let d = distance2(b.x, b.y, a.x, a.y);
                    if d < square(a.size) {
                        let ghost before = self.asteroids@;
                        self.bullets.set(i, Bullet { alive: false, ..b });
                        self.asteroids.set(j, Asteroid { alive: false, ..a });
                        proof {
                            lemma_tally_kill(oa, before, self.asteroids@, j as int, na as int,
                                |a: Asteroid| points_of(a.size_level as int));
                            lemma_tally_kill(oa, before, self.asteroids@, j as int, na as int,
                                |a: Asteroid| if a.size_level > 1 { 1int } else { 0int });
                            assert(hits_asteroid(ob[i as int], oa[j as int]));
                        }
                        points = points.saturating_add(asteroid_points(a.size_level) as u64);
                        let mut kids = a.split();
                        let ghost old_children = children@;
                        let ghost old_order = order;
                        let ghost kid_seq = kids@;
                        children.append(&mut kids);
                        proof {
                            assert(a == oa[j as int]);
                            if a.size_level > 1 {
                                order = order.push(j as int);
                            }
                            assert forall|p: int| 0 <= p < old_order.len() implies
                                #[trigger] order[p] != j && !self.asteroids@[order[p]].alive by {
                                assert(order[p] == old_order[p]);
                                assert(!before[old_order[p]].alive);
                            }
                            assert forall|p: int| 0 <= p < order.len() implies {
                                &&& 0 <= #[trigger] order[p] < oa.len()
                                &&& oa[order[p]].alive && !self.asteroids@[order[p]].alive && oa[order[p]].size_level > 1
                                &&& child_at(children@[2 * p], oa[order[p]], 1)
                                &&& child_at(children@[2 * p + 1], oa[order[p]], -1)
                            } by {
                                if p < old_order.len() {
                                    assert(order[p] == old_order[p]);
                                    assert(children@[2 * p] == old_children[2 * p]);
                                    assert(children@[2 * p + 1] == old_children[2 * p + 1]);
                                } else {
                                    assert(children@[2 * p] == kid_seq[0]);
                                    assert(children@[2 * p + 1] == kid_seq[1]);
                                }
                            }
                            assert forall|p: int, q: int| 0 <= p < q < order.len() implies
                                #[trigger] order[p] != #[trigger] order[q] by {
                                if q >= old_order.len() {
                                    assert(order[p] == old_order[p]);
                                } else {
                                    assert(order[p] == old_order[p] && order[q] == old_order[q]);
                                }
                            }
                        }
                    }
                }
                j = j + 1;
            }
            i = i + 1;
        }
        let r = (points, children);
        assert(children_follow(r.1@, old(self).asteroids@, self.asteroids@, order));
        assert(asteroid_pass(old(self).bullets@, old(self).asteroids@, self.bullets@, self.asteroids@, r.1@));
        r
    }

    /// Drops the destroyed asteroids, keeping the order of the rest, and
    /// adds `children` after them.
    pub fn remove_destroyed_asteroids(&mut self, children: Vec<Asteroid>)
        requires
            asteroids_ok(old(self).asteroids@, FRAME_LIMIT as int),
            asteroids_ok(children@, COORD_LIMIT as int),
        ensures
            final(self).asteroids@ == old(self).asteroids@.filter(live_asteroid()) + children@,
            asteroids_ok(final(self).asteroids@, COORD_LIMIT as int),
            *final(self) == (GameState { asteroids: final(self).asteroids, ..*old(self) }),
    {
        let ghost oa = self.asteroids@;
        let mut survivors: Vec<Asteroid> = Vec::new();
        let n = self.asteroids.len();
        let mut j: usize = 0;
        while j < n
            invariant
                0 <= j <= n,
                n == oa.len(),
                oa == self.asteroids@,
                oa == old(self).asteroids@,
                asteroids_ok(oa, FRAME_LIMIT as int),
                survivors@ == oa.take(j as int).filter(live_asteroid()),
                asteroids_ok(survivors@, COORD_LIMIT as int),
                *self == *old(self),
            decreases n - j,
        {
            let a = self.asteroids[j];
            proof {
                reveal(Seq::filter);
                assert(oa.take(j as int + 1).drop_last() =~= oa.take(j as int));
                assert(oa.take(j as int + 1).last() == a);
                assert(oa[j as int].wf());
                assert(live_asteroid()(a) == a.alive);
                assert(oa.take(j as int + 1).len() == j + 1);
                assert(oa.take(j as int + 1).filter(live_asteroid()) == if a.alive {
                    oa.take(j as int).filter(live_asteroid()).push(a)
                } else {
                    oa.take(j as int).filter(live_asteroid())
                });
            }
            if a.alive {
                survivors.push(a);
            }
            j = j + 1;
        }
        proof {
            assert(oa.take(n as int) =~= oa);
        }
        let mut kids = children;
        let ghost kid_seq = kids@;
        let ghost kept = survivors@;
        survivors.append(&mut kids);
        proof {
            assert forall|k: int| 0 <= k < survivors@.len() implies
                (#[trigger] survivors@[k]).wf() && within(survivors@[k].x, survivors@[k].y, COORD_LIMIT as int) by {
                if k >= kept.len() {
                    assert(survivors@[k] == kid_seq[k - kept.len()]);
                }
            }
        }
        self.asteroids = survivors;
    }

    /// Whether a live asteroid overlaps the ship.
    pub fn ship_hits_asteroid(&self) -> (hit: bool)
        requires
            self.bounded(COORD_LIMIT as int),
        ensures
            hit == exists|k: int| 0 <= k < self.asteroids@.len() && self.touches_asteroid(#[trigger] self.asteroids@[k]),
    {
        let mut k: usize = 0;
        while k < self.asteroids.len()
            invariant
                0 <= k <= self.asteroids@.len(),
                self.bounded(COORD_LIMIT as int),
                forall|m: int| 0 <= m < k ==> !self.touches_asteroid(#[trigger] self.asteroids@[m]),
            decreases self.asteroids@.len() - k,
        {
            let a = self.asteroids[k];
            assert(self.asteroids@[k as int].wf());
            if a.alive && distance2(self.player_ship.x, self.player_ship.y, a.x, a.y) < square(a.size) {
                return true;
            }
            k = k + 1;
        }
        false
    }


    /// Projectiles against saucers: each live projectile destroys the first
    /// live saucer it overlaps that did not fire it, and is spent.
    /// Afterwards no live projectile overlaps a live saucer it may harm,
    /// every projectile or saucer destroyed overlapped a live one of the
    /// other kind, and the points are those of the saucers destroyed.
    pub fn shoot_saucers(&mut self) -> (points: u64)
        requires
            old(self).bounded(COORD_LIMIT as int),
        ensures
            final(self).bounded(COORD_LIMIT as int),
            saucer_pass(old(self).bullets@, old(self).saucers@, final(self).bullets@, final(self).saucers@),
            points == saturated(saucer_bounty(old(self).saucers@, final(self).saucers@, old(self).saucers@.len() as int)),
            *final(self) == (GameState { bullets: final(self).bullets, saucers: final(self).saucers, ..*old(self) }),
    {
        let ghost ob = self.bullets@;
        let ghost os = self.saucers@;
        let mut points: u64 = 0;
        let nb = self.bullets.len();
        let ns = self.saucers.len();
        proof {
            lemma_saucer_bounty_none(os, ns as int);
        }
        let mut i: usize = 0;
        while i < nb
            invariant
                0 <= i <= nb,
                self.bullets@.len() == nb,
                self.saucers@.len() == ns,
                ob == old(self).bullets@,
                os == old(self).saucers@,
                ob.len() == nb,
                os.len() == ns,
                old(self).bounded(COORD_LIMIT as int),
                forall|k: int| 0 <= k < nb ==> {
                    &&& #[trigger] self.bullets@[k] == (Bullet { alive: self.bullets@[k].alive, ..ob[k] })
                    &&& self.bullets@[k].alive ==> ob[k].alive
                    &&& !self.bullets@[k].alive && ob[k].alive ==> exists|j: int|
                        0 <= j < ns && os[j].alive && #[trigger] hits_saucer(ob[k], os[j])
                },
                forall|j: int| 0 <= j < ns ==> {
                    &&& #[trigger] self.saucers@[j] == (Saucer { alive: self.saucers@[j].alive, ..os[j] })
                    &&& self.saucers@[j].alive ==> os[j].alive
                    &&& !self.saucers@[j].alive && os[j].alive ==> exists|k: int|
                        0 <= k < nb && ob[k].alive && #[trigger] hits_saucer(ob[k], os[j])
                },
                forall|k: int, j: int|
                    0 <= k < i && 0 <= j < ns && self.bullets@[k].alive && self.saucers@[j].alive
                        ==> !#[trigger] hits_saucer(ob[k], os[j]),
                points == saturated(saucer_bounty(os, self.saucers@, ns as int)),
                *self == (GameState { bullets: self.bullets, saucers: self.saucers, ..*old(self) }),
            decreases nb - i,
        {
            let mut j: usize = 0;
            while j < ns
                invariant
                    0 <= i < nb,
                    0 <= j <= ns,
                    self.bullets@.len() == nb,
                    self.saucers@.len() == ns,
                    ob == old(self).bullets@,
                    os == old(self).saucers@,
                    ob.len() == nb,
                    os.len() == ns,
                    old(self).bounded(COORD_LIMIT as int),
                    forall|k: int| 0 <= k < nb ==> {
                        &&& #[trigger] self.bullets@[k] == (Bullet { alive: self.bullets@[k].alive, ..ob[k] })
                        &&& self.bullets@[k].alive ==> ob[k].alive
                        &&& !self.bullets@[k].alive && ob[k].alive ==> exists|j: int|
                            0 <= j < ns && os[j].alive && #[trigger] hits_saucer(ob[k], os[j])
                    },
                    forall|m: int| 0 <= m < ns ==> {
                        &&& #[trigger] self.saucers@[m] == (Saucer { alive: self.saucers@[m].alive, ..os[m] })
                        &&& self.saucers@[m].alive ==> os[m].alive
                        &&& !self.saucers@[m].alive && os[m].alive ==> exists|k: int|
                            0 <= k < nb && ob[k].alive && #[trigger] hits_saucer(ob[k], os[m])
                    },
                    forall|k: int, m: int|
                        0 <= k < i && 0 <= m < ns && self.bullets@[k].alive && self.saucers@[m].alive
                            ==> !#[trigger] hits_saucer(ob[k], os[m]),
                    self.bullets@[i as int].alive ==> forall|m: int|
                        0 <= m < j && self.saucers@[m].alive ==> !#[trigger] hits_saucer(ob[i as int], os[m]),
                    points == saturated(saucer_bounty(os, self.saucers@, ns as int)),
                    *self == (GameState { bullets: self.bullets, saucers: self.saucers, ..*old(self) }),
                decreases ns - j,
            {
                let b = self.bullets[i];
                let sc = self.saucers[j];
                assert(ob[i as int].wf() && os[j as int].wf());
                if b.alive && sc.alive && b.owner_id != sc.id {
                    let d = distance2(b.x, b.y, sc.x, sc.y);
                    if d < square(sc.get_collision_radius()) {
                        let ghost before = self.saucers@;
                        self.bullets.set(i, Bullet { alive: false, ..b });
                        self.saucers.set(j, Saucer { alive: false, ..sc });
                        proof {
                            lemma_saucer_bounty_kill(os, before, self.saucers@, j as int, ns as int);
                            assert(hits_saucer(ob[i as int], os[j as int]));
                        }
                        points = points.saturating_add(saucer_points(sc.size) as u64);
                    }
                }
                j = j + 1;
            }
            i = i + 1;
        }
        points
    }

    /// Whether a live saucer overlaps the ship; the first that does is
    /// destroyed.
    pub fn ship_hits_saucer(&mut self) -> (hit: bool)
        requires
            old(self).bounded(COORD_LIMIT as int),
        ensures
            final(self).bounded(COORD_LIMIT as int),
            hit == exists|k: int| 0 <= k < old(self).saucers@.len() && old(self).touches_saucer(#[trigger] old(self).saucers@[k]),
            !hit ==> *final(self) == *old(self),
            hit ==> exists|k: int| 0 <= k < old(self).saucers@.len() && {
                &&& old(self).touches_saucer(#[trigger] old(self).saucers@[k])
                &&& forall|m: int| 0 <= m < k ==> !old(self).touches_saucer(#[trigger] old(self).saucers@[m])
                &&& final(self).saucers@ == old(self).saucers@.update(k, Saucer { alive: false, ..old(self).saucers@[k] })
            },
            *final(self) == (GameState { saucers: final(self).saucers, ..*old(self) }),
    {
        let mut k: usize = 0;
        let n = self.saucers.len();
        while k < n
            invariant
                0 <= k <= n,
                n == self.saucers@.len(),
                *self == *old(self),
                self.bounded(COORD_LIMIT as int),
                forall|m: int| 0 <= m < k ==> !self.touches_saucer(#[trigger] self.saucers@[m]),
            decreases n - k,
        {
            let sc = self.saucers[k];
            assert(self.saucers@[k as int].wf());
            if sc.alive && distance2(self.player_ship.x, self.player_ship.y, sc.x, sc.y) < square(sc.get_collision_radius()) {
                self.saucers.set(k, Saucer { alive: false, ..sc });
                proof {
                    assert forall|m: int| 0 <= m < self.saucers@.len() implies {
                        &&& (#[trigger] self.saucers@[m]).wf()
                        &&& within(self.saucers@[m].x, self.saucers@[m].y, COORD_LIMIT as int)
                    } by {
                        assert(old(self).saucers@[m].wf());
                    }
                }
                return true;
            }
            k = k + 1;
        }
        false
    }

    /// A live asteroid overlaps the ship.
    pub open spec fn touches_asteroid(&self, a: Asteroid) -> bool {
        a.alive && dist2(self.player_ship.x as int, self.player_ship.y as int, a.x as int, a.y as int) < a.size * a.size
    }

    /// A live saucer overlaps the ship.
    pub open spec fn touches_saucer(&self, sc: Saucer) -> bool {
        sc.alive && crate::ai::dist2(self.player_ship.x as int, self.player_ship.y as int, sc.x as int, sc.y as int)
            < (crate::saucer::body_size(sc.size) * 3 / 2) * (crate::saucer::body_size(sc.size) * 3 / 2)
    }

    /// A live projectile that the ship did not fire is within hitting
    /// distance of the ship.
    pub open spec fn enemy_fire_hits(&self, b: Bullet) -> bool {
        b.alive && b.owner_id != self.player_ship.id
            && crate::ai::dist2(b.x as int, b.y as int, self.player_ship.x as int, self.player_ship.y as int) < SHIP_HIT_DIST2
    }

    /// Whether a live enemy projectile hits the ship; the first that does
    /// is destroyed.
    pub fn enemy_bullet_hits_ship(&mut self) -> (hit: bool)
        requires
            old(self).bounded(COORD_LIMIT as int),
        ensures
            final(self).bounded(COORD_LIMIT as int),
            hit == exists|k: int| 0 <= k < old(self).bullets@.len() && old(self).enemy_fire_hits(#[trigger] old(self).bullets@[k]),
            !hit ==> *final(self) == *old(self),
            hit ==> exists|k: int| 0 <= k < old(self).bullets@.len() && {
                &&& old(self).enemy_fire_hits(#[trigger] old(self).bullets@[k])
                &&& forall|m: int| 0 <= m < k ==> !old(self).enemy_fire_hits(#[trigger] old(self).bullets@[m])
                &&& final(self).bullets@ == old(self).bullets@.update(k, Bullet { alive: false, ..old(self).bullets@[k] })
            },
            *final(self) == (GameState { bullets: final(self).bullets, ..*old(self) }),
    {
        let mut k: usize = 0;
        let n = self.bullets.len();
        while k < n
            invariant
                0 <= k <= n,
                n == self.bullets@.len(),
                *self == *old(self),
                self.bounded(COORD_LIMIT as int),
                forall|m: int| 0 <= m < k ==> !self.enemy_fire_hits(#[trigger] self.bullets@[m]),
            decreases n - k,
        {
            let b = self.bullets[k];
            assert(self.bullets@[k as int].wf());
            if b.alive && b.owner_id != self.player_ship.id
                && distance2(b.x, b.y, self.player_ship.x, self.player_ship.y) < SHIP_HIT_DIST2 {
                self.bullets.set(k, Bullet { alive: false, ..b });
                proof {
                    assert forall|m: int| 0 <= m < self.bullets@.len() implies {
                        &&& (#[trigger] self.bullets@[m]).wf()
                        &&& within(self.bullets@[m].x, self.bullets@[m].y, COORD_LIMIT as int)
                    } by {
                        assert(old(self).bullets@[m].wf());
                    }
                }
                return true;
            }
            k = k + 1;
        }
        false
    }


    /// Resolves one frame's collisions, in order: projectiles against
    /// asteroids, the ship against asteroids, projectiles against saucers,
    /// the ship against saucers, enemy projectiles against the ship. A death
    /// ends the pass at once and forfeits the frame's points; otherwise the
    /// points are added to the score, which saturates. Returns whether the
    /// ship died.
    pub fn check_collisions(&mut self) -> (died: bool)
        requires
            old(self).bounded(FRAME_LIMIT as int),
            old(self).counters_ok(),
        ensures
            final(self).bounded(COORD_LIMIT as int),
            final(self).counters_ok(),
            collision_outcome(*old(self), *final(self), died),
            died ==> {
                let (count, cleared) = death_outcome(
                    old(self).deaths_in_short_time as int,
                    old(self).time_since_last_death as int,
                );
                &&& final(self).player_ship == respawn_of(old(self).player_ship)
                &&& final(self).time_since_last_death == 0
                &&& final(self).deaths_in_short_time == count
                &&& final(self).score == old(self).score
                &&& cleared ==> final(self).asteroids@.len() == 0 && final(self).bullets@.len() == 0
                    && final(self).time_since_asteroid_spawn == SPAWN_GRACE
                &&& !cleared ==> final(self).time_since_asteroid_spawn == old(self).time_since_asteroid_spawn
            },
            !died ==> {
                &&& final(self).player_ship == old(self).player_ship
                &&& final(self).time_since_last_death == old(self).time_since_last_death
                &&& final(self).deaths_in_short_time == old(self).deaths_in_short_time
                &&& final(self).time_since_asteroid_spawn == old(self).time_since_asteroid_spawn
                &&& final(self).score >= old(self).score
                &&& forall|j: int| 0 <= j < final(self).asteroids@.len()
                    ==> !final(self).touches_asteroid(#[trigger] final(self).asteroids@[j])
                &&& forall|j: int| 0 <= j < final(self).saucers@.len()
                    ==> !final(self).touches_saucer(#[trigger] final(self).saucers@[j])
                &&& forall|k: int| 0 <= k < final(self).bullets@.len()
                    ==> !final(self).enemy_fire_hits(#[trigger] final(self).bullets@[k])
                &&& forall|k: int, j: int|
                    0 <= k < final(self).bullets@.len() && 0 <= j < final(self).saucers@.len()
                        && final(self).bullets@[k].alive && final(self).saucers@[j].alive
                        ==> !#[trigger] hits_saucer(final(self).bullets@[k], final(self).saucers@[j])
            },
            final(self).saucers@.len() == old(self).saucers@.len(),
            forall|k: int| 0 <= k < final(self).saucers@.len() ==>
                #[trigger] final(self).saucers@[k] == (Saucer { alive: final(self).saucers@[k].alive, ..old(self).saucers@[k] }),
            final(self).time_since_saucer_spawn == old(self).time_since_saucer_spawn,
            final(self).saucer_id_counter == old(self).saucer_id_counter,
            final(self).max_asteroids == old(self).max_asteroids,
            final(self).width == old(self).width && final(self).height == old(self).height,
            final(self).game_color == old(self).game_color && final(self).hud_color == old(self).hud_color,
    {
        let ghost g0 = *self;
        let (mut points, children) = self.mark_asteroid_hits();
        let ghost b1 = self.bullets@;
        let ghost a1 = self.asteroids@;
        let ghost kids = children@;
        proof {
            assert forall|c: int| 0 <= c < children@.len() implies
                (#[trigger] children@[c]).wf() && within(children@[c].x, children@[c].y, COORD_LIMIT as int) by {
                let order = choose|order: Seq<int>| children_follow(children@, old(self).asteroids@, self.asteroids@, order);
                let p = c / 2;
                assert(c == 2 * p || c == 2 * p + 1);
                assert(0 <= order[p] < old(self).asteroids@.len());
            }
        }
        self.remove_destroyed_asteroids(children);
        let ghost a2 = self.asteroids@;
        let ghost g2 = *self;
        if self.ship_hits_asteroid() {
            self.handle_player_death();
            proof {
                assert(asteroid_pass(g0.bullets@, g0.asteroids@, b1, a1, kids));
                assert(a2 == a1.filter(live_asteroid()) + kids);
                let j = choose|j: int| 0 <= j < g2.asteroids@.len() && g2.touches_asteroid(#[trigger] g2.asteroids@[j]);
                assert(g0.touches_asteroid(a2[j]));
                assert(died_with(g0, *self, a2, b1, g0.saucers@));
            }
            return true;
        }
        points = points.saturating_add(self.shoot_saucers());
        let ghost b2 = self.bullets@;
        let ghost s1 = self.saucers@;
        let ghost g3 = *self;
        proof {
            assert(asteroid_pass(g0.bullets@, g0.asteroids@, b1, a1, kids));
            assert(saucer_pass(b1, g0.saucers@, b2, s1));
            assert(a2 == a1.filter(live_asteroid()) + kids);
        }
        if self.ship_hits_saucer() {
            proof {
                let k = choose|k: int| 0 <= k < g3.saucers@.len() && {
                    &&& g3.touches_saucer(#[trigger] g3.saucers@[k])
                    &&& forall|m: int| 0 <= m < k ==> !g3.touches_saucer(#[trigger] g3.saucers@[m])
                    &&& self.saucers@ == g3.saucers@.update(k, Saucer { alive: false, ..g3.saucers@[k] })
                };
                assert(first_saucer_touch(g0, s1, k));
            }
            self.handle_player_death();
            return true;
        }
        if self.enemy_bullet_hits_ship() {
            proof {
                assert forall|k: int| !first_saucer_touch(g0, s1, k) by {
                    if 0 <= k < s1.len() {
                        assert(!g3.touches_saucer(g3.saucers@[k]));
                    }
                }
                let k = choose|k: int| 0 <= k < g3.bullets@.len() && {
                    &&& g3.enemy_fire_hits(#[trigger] g3.bullets@[k])
                    &&& forall|m: int| 0 <= m < k ==> !g3.enemy_fire_hits(#[trigger] g3.bullets@[m])
                    &&& self.bullets@ == g3.bullets@.update(k, Bullet { alive: false, ..g3.bullets@[k] })
                };
                assert(first_enemy_hit(g0, b2, k));
            }
            self.handle_player_death();
            return true;
        }
        let total = (self.score as u64).saturating_add(points);
        self.score = if total > u32::MAX as u64 { u32::MAX } else { total as u32 };
        false
    }


    /// Positions of every asteroid, then of every saucer.
    pub fn threat_positions(&self) -> (r: Vec<(i64, i64)>)
        ensures
            r@.len() == self.asteroids@.len() + self.saucers@.len(),
            forall|i: int| 0 <= i < self.asteroids@.len() ==>
                #[trigger] r@[i] == (self.asteroids@[i].x, self.asteroids@[i].y),
            forall|i: int| 0 <= i < self.saucers@.len() ==>
                #[trigger] r@[self.asteroids@.len() + i] == (self.saucers@[i].x, self.saucers@[i].y),
    {
        let mut r: Vec<(i64, i64)> = Vec::new();
        let mut i: usize = 0;
        while i < self.asteroids.len()
            invariant
                0 <= i <= self.asteroids@.len(),
                r@.len() == i,
                forall|k: int| 0 <= k < i ==> #[trigger] r@[k] == (self.asteroids@[k].x, self.asteroids@[k].y),
            decreases self.asteroids@.len() - i,
        {
            r.push((self.asteroids[i].x, self.asteroids[i].y));
            i = i + 1;
        }
        let na = self.asteroids.len();
        let mut j: usize = 0;
        while j < self.saucers.len()
            invariant
                0 <= j <= self.saucers@.len(),
                na == self.asteroids@.len(),
                r@.len() == na + j,
                forall|k: int| 0 <= k < na ==> #[trigger] r@[k] == (self.asteroids@[k].x, self.asteroids@[k].y),
                forall|k: int| 0 <= k < j ==> #[trigger] r@[na + k] == (self.saucers@[k].x, self.saucers@[k].y),
            decreases self.saucers@.len() - j,
        {
            r.push((self.saucers[j].x, self.saucers[j].y));
            j = j + 1;
        }
        r
    }

    /// Moves every saucer and lets each one that is ready fire: aimed at the
    /// ship (three times in ten for a large saucer, seven for a small one),
    /// else at random half the time. Saucers that have left the field are
    /// dropped.
    fn advance_saucers(&mut self, delta_time: i64)
        requires
            saucers_ok(old(self).saucers@, PLAY_LIMIT as int),
            bullets_ok(old(self).bullets@, (PLAY_LIMIT + 2 * MOVE_LIMIT) as int),
            old(self).player_ship.wf(),
            0 <= delta_time <= DT_LIMIT,
        ensures
            bullets_ok(final(self).bullets@, (PLAY_LIMIT + 2 * MOVE_LIMIT) as int),
            saucers_advanced(old(self).saucers@, old(self).bullets@, final(self).saucers@, final(self).bullets@, delta_time as int),
            *final(self) == (GameState { saucers: final(self).saucers, bullets: final(self).bullets, ..*old(self) }),
    {
        let ghost old_saucers = self.saucers@;
        let ghost mut from: Seq<int> = Seq::empty();
        let mut shots: Vec<Bullet> = Vec::new();
        let mut kept: Vec<Saucer> = Vec::new();
        let n = self.saucers.len();
        let mut i: usize = 0;
        while i < n
            invariant
                0 <= i <= n,
                n == self.saucers@.len(),
                self.saucers@ == old_saucers,
                old_saucers == old(self).saucers@,
                saucers_ok(old_saucers, PLAY_LIMIT as int),
                self.player_ship.wf(),
                0 <= delta_time <= DT_LIMIT,
                saucers_ok(kept@, crate::saucer::SAUCER_EXIT_LIMIT as int),
                forall|k: int| 0 <= k < kept@.len() ==> (#[trigger] kept@[k]).alive,
                kept@.len() <= i,
                forall|k: int| 0 <= k < kept@.len() ==> moved_saucer(#[trigger] kept@[k], old_saucers, delta_time as int),
                from.len() == kept@.len(),
                forall|k: int| 0 <= k < from.len() ==> 0 <= #[trigger] from[k] < i && kept@[k].id == old_saucers[from[k]].id,
                forall|p: int, q: int| 0 <= p < q < from.len() ==> #[trigger] from[p] < #[trigger] from[q],
                forall|k: int| 0 <= k < shots@.len() ==> saucer_shot(#[trigger] shots@[k], old_saucers),
                bullets_ok(shots@, (PLAY_LIMIT + 2 * MOVE_LIMIT) as int),
                *self == *old(self),
            decreases n - i,
        {
            let mut sc = self.saucers[i];
            assert(old_saucers[i as int].wf());
            sc.update(delta_time);
            assert(old_saucers[i as int].id == sc.id);
            if sc.can_shoot() {
                let aimed = match sc.size {
                    SaucerSize::Large => chance(3, 10),
                    SaucerSize::Small => chance(7, 10),
                };
                if aimed {
                    let b = Bullet::aimed(sc.x, sc.y, self.player_ship.x, self.player_ship.y, sc.id, self.game_color);
                    shots.push(b);
                    sc.shoot();
                } else if chance(1, 2) {
                    let angle = roll_between(0, TAU_U);
                    let b = Bullet::new(sc.x, sc.y, angle, sc.id, self.game_color);
                    shots.push(b);
                    sc.shoot();
                }
            }
            assert(moved_saucer(sc, old_saucers, delta_time as int)) by {
                assert(moved_from(sc, old_saucers[i as int], delta_time as int));
            }
            if sc.alive {
                kept.push(sc);
                proof {
                    from = from.push(i as int);
                }
            }
            i = i + 1;
        }
        proof {
            assert(ids_distinct(old_saucers) ==> ids_distinct(kept@)) by {
                if ids_distinct(old_saucers) {
                    assert forall|p: int, q: int| 0 <= p < q < kept@.len() implies
                        (#[trigger] kept@[p]).id != (#[trigger] kept@[q]).id by {
                        assert(from[p] < from[q]);
                    }
                }
            }
        }
        self.saucers = kept;
        let ghost before = self.bullets@;
        let ghost added = shots@;
        self.bullets.append(&mut shots);
        proof {
            assert(self.bullets@.take(before.len() as int) =~= before);
            assert forall|k: int| before.len() <= k < self.bullets@.len() implies
                saucer_shot(#[trigger] self.bullets@[k], old_saucers) by {
                assert(self.bullets@[k] == added[k - before.len()]);
            }
            assert forall|k: int| 0 <= k < self.bullets@.len() implies
                (#[trigger] self.bullets@[k]).wf() && within(self.bullets@[k].x, self.bullets@[k].y, (PLAY_LIMIT + 2 * MOVE_LIMIT) as int) by {
                if k >= before.len() {
                    assert(self.bullets@[k] == added[k - before.len()]);
                }
            }
        }
    }

    /// Moves every projectile and drops those whose lifetime is spent.
    fn advance_bullets(&mut self, delta_time: i64)
        requires
            bullets_ok(old(self).bullets@, (PLAY_LIMIT + 2 * MOVE_LIMIT) as int),
            0 <= delta_time <= DT_LIMIT,
        ensures
            bullets_ok(final(self).bullets@, (PLAY_LIMIT + 3 * MOVE_LIMIT) as int),
            final(self).bullets@ == old(self).bullets@.map_values(|b: Bullet| bullet_step(b, delta_time as int)).filter(
                live_bullet(),
            ),
            *final(self) == (GameState { bullets: final(self).bullets, ..*old(self) }),
    {
        let ghost old_bullets = self.bullets@;
        let ghost stepped = old_bullets.map_values(|b: Bullet| bullet_step(b, delta_time as int));
        let mut kept: Vec<Bullet> = Vec::new();
        let n = self.bullets.len();
        let mut i: usize = 0;
        while i < n
            invariant
                0 <= i <= n,
                n == self.bullets@.len(),
                self.bullets@ == old_bullets,
                old_bullets == old(self).bullets@,
                bullets_ok(old_bullets, (PLAY_LIMIT + 2 * MOVE_LIMIT) as int),
                0 <= delta_time <= DT_LIMIT,
                bullets_ok(kept@, (PLAY_LIMIT + 3 * MOVE_LIMIT) as int),
                kept@ == stepped.take(i as int).filter(live_bullet()),
                stepped == old_bullets.map_values(|b: Bullet| bullet_step(b, delta_time as int)),
                *self == *old(self),
            decreases n - i,
        {
            let mut b = self.bullets[i];
            assert(old_bullets[i as int].wf());
            b.update(delta_time);
            proof {
                reveal(Seq::filter);
                assert(stepped.take(i as int + 1).drop_last() =~= stepped.take(i as int));
                assert(stepped.take(i as int + 1).last() == b);
                assert(live_bullet()(b) == b.alive);
                assert(stepped.take(i as int + 1).len() == i + 1);
                assert(stepped.take(i as int + 1).filter(live_bullet()) == if b.alive {
                    stepped.take(i as int).filter(live_bullet()).push(b)
                } else {
                    stepped.take(i as int).filter(live_bullet())
                });
            }
            if b.alive {
                kept.push(b);
            }
            i = i + 1;
        }
        proof {
            assert(stepped.take(n as int) =~= stepped);
        }
        self.bullets = kept;
    }

    /// Moves every asteroid.
    fn advance_asteroids(&mut self, delta_time: i64)
        requires
            asteroids_ok(old(self).asteroids@, PLAY_LIMIT as int),
            0 <= delta_time <= DT_LIMIT,
        ensures
            asteroids_ok(final(self).asteroids@, (PLAY_LIMIT + MOVE_LIMIT) as int),
            final(self).asteroids@.len() == old(self).asteroids@.len(),
            forall|k: int| 0 <= k < final(self).asteroids@.len() ==>
                #[trigger] final(self).asteroids@[k] == asteroid_step(old(self).asteroids@[k], delta_time as int),
            *final(self) == (GameState { asteroids: final(self).asteroids, ..*old(self) }),
    {
        let ghost old_asteroids = self.asteroids@;
        let n = self.asteroids.len();
        let mut i: usize = 0;
        while i < n
            invariant
                0 <= i <= n,
                n == self.asteroids@.len(),
                n == old_asteroids.len(),
                old_asteroids == old(self).asteroids@,
                asteroids_ok(old_asteroids, PLAY_LIMIT as int),
                0 <= delta_time <= DT_LIMIT,
                forall|k: int| i <= k < n ==> #[trigger] self.asteroids@[k] == old_asteroids[k],
                forall|k: int| 0 <= k < i ==>
                    (#[trigger] self.asteroids@[k]).wf()
                        && within(self.asteroids@[k].x, self.asteroids@[k].y, (PLAY_LIMIT + MOVE_LIMIT) as int)
                        && self.asteroids@[k] == asteroid_step(old_asteroids[k], delta_time as int),
                *self == (GameState { asteroids: self.asteroids, ..*old(self) }),
            decreases n - i,
        {
            let mut a = self.asteroids[i];
            assert(old_asteroids[i as int].wf());
            a.update(delta_time);
            self.asteroids.set(i, a);
            i = i + 1;
        }
    }

    /// Wraps the ship, every projectile and every asteroid around the
    /// playfield's edges; saucers are not wrapped.
    fn wrap_all(&mut self)
        requires
            old(self).bounded(COORD_LIMIT as int),
        ensures
            wrapped_from(*old(self), *final(self)),
            final(self).player_ship.wf(),
            final(self).player_ship == (Ship { x: final(self).player_ship.x, y: final(self).player_ship.y, ..old(self).player_ship }),
            within(final(self).player_ship.x, final(self).player_ship.y, WRAP_LIMIT as int),
            bullets_ok(final(self).bullets@, WRAP_LIMIT as int),
            asteroids_ok(final(self).asteroids@, WRAP_LIMIT as int),
            final(self).bullets@.len() == old(self).bullets@.len(),
            final(self).asteroids@.len() == old(self).asteroids@.len(),
            final(self).player_ship.x == wrapped(old(self).player_ship.x as int),
            final(self).player_ship.y == wrapped(old(self).player_ship.y as int),
            forall|k: int| 0 <= k < final(self).bullets@.len() ==> #[trigger] final(self).bullets@[k] == (Bullet {
                x: wrapped(old(self).bullets@[k].x as int) as i64,
                y: wrapped(old(self).bullets@[k].y as int) as i64,
                ..old(self).bullets@[k]
            }),
            forall|k: int| 0 <= k < final(self).asteroids@.len() ==> #[trigger] final(self).asteroids@[k] == (Asteroid {
                x: wrapped(old(self).asteroids@[k].x as int) as i64,
                y: wrapped(old(self).asteroids@[k].y as int) as i64,
                ..old(self).asteroids@[k]
            }),
            *final(self) == (GameState {
                player_ship: final(self).player_ship,
                bullets: final(self).bullets,
                asteroids: final(self).asteroids,
                ..*old(self)
            }),
    {
        let mut x = self.player_ship.x;
        let mut y = self.player_ship.y;
        wrap_position(&mut x, &mut y);
        self.player_ship.x = x;
        self.player_ship.y = y;
        let nb = self.bullets.len();
        let mut i: usize = 0;
        while i < nb
            invariant
                0 <= i <= nb,
                nb == self.bullets@.len(),
                nb == old(self).bullets@.len(),
                forall|k: int| i <= k < nb ==> #[trigger] self.bullets@[k] == old(self).bullets@[k],
                old(self).bounded(COORD_LIMIT as int),
                forall|k: int| 0 <= k < i ==>
                    (#[trigger] self.bullets@[k]).wf() && within(self.bullets@[k].x, self.bullets@[k].y, WRAP_LIMIT as int)
                    && self.bullets@[k] == (Bullet {
                        x: wrapped(old(self).bullets@[k].x as int) as i64,
                        y: wrapped(old(self).bullets@[k].y as int) as i64,
                        ..old(self).bullets@[k]
                    }),
                self.player_ship.x == wrapped(old(self).player_ship.x as int),
                self.player_ship.y == wrapped(old(self).player_ship.y as int),
                self.player_ship.wf(),
                self.player_ship == (Ship { x: self.player_ship.x, y: self.player_ship.y, ..old(self).player_ship }),
                within(self.player_ship.x, self.player_ship.y, WRAP_LIMIT as int),
                *self == (GameState { player_ship: self.player_ship, bullets: self.bullets, ..*old(self) }),
            decreases nb - i,
        {
            let mut b = self.bullets[i];
            assert(old(self).bullets@[i as int].wf());
            let mut bx = b.x;
            let mut by = b.y;
            wrap_position(&mut bx, &mut by);
            b.x = bx;
            b.y = by;
            self.bullets.set(i, b);
            i = i + 1;
        }
        let na = self.asteroids.len();
        let mut j: usize = 0;
        while j < na
            invariant
                0 <= j <= na,
                na == self.asteroids@.len(),
                na == old(self).asteroids@.len(),
                forall|k: int| j <= k < na ==> #[trigger] self.asteroids@[k] == old(self).asteroids@[k],
                old(self).bounded(COORD_LIMIT as int),
                forall|k: int| 0 <= k < j ==>
                    (#[trigger] self.asteroids@[k]).wf() && within(self.asteroids@[k].x, self.asteroids@[k].y, WRAP_LIMIT as int)
                    && self.asteroids@[k] == (Asteroid {
                        x: wrapped(old(self).asteroids@[k].x as int) as i64,
                        y: wrapped(old(self).asteroids@[k].y as int) as i64,
                        ..old(self).asteroids@[k]
                    }),
                forall|k: int| 0 <= k < nb ==> #[trigger] self.bullets@[k] == (Bullet {
                    x: wrapped(old(self).bullets@[k].x as int) as i64,
                    y: wrapped(old(self).bullets@[k].y as int) as i64,
                    ..old(self).bullets@[k]
                }),
                nb == self.bullets@.len(),
                self.player_ship.x == wrapped(old(self).player_ship.x as int),
                self.player_ship.y == wrapped(old(self).player_ship.y as int),
                bullets_ok(self.bullets@, WRAP_LIMIT as int),
                self.bullets@.len() == old(self).bullets@.len(),
                self.player_ship.wf(),
                self.player_ship == (Ship { x: self.player_ship.x, y: self.player_ship.y, ..old(self).player_ship }),
                within(self.player_ship.x, self.player_ship.y, WRAP_LIMIT as int),
                *self == (GameState {
                    player_ship: self.player_ship,
                    bullets: self.bullets,
                    asteroids: self.asteroids,
                    ..*old(self)
                }),
            decreases na - j,
        {
            let mut a = self.asteroids[j];
            assert(old(self).asteroids@[j as int].wf());
            let mut ax = a.x;
            let mut ay = a.y;
            wrap_position(&mut ax, &mut ay);
            a.x = ax;
            a.y = ay;
            self.asteroids.set(j, a);
            j = j + 1;
        }
    }

    /// Advances the frame's timers by `dt` and lets the spawn governors act.
    fn begin_frame(&mut self, dt: i64)
        requires
            old(self).wf(),
            0 < dt <= DT_LIMIT,
        ensures
            final(self).wf(),
            spawned(*old(self), *final(self), dt as int),
    {
        self.time_since_last_death = advance_timer(self.time_since_last_death, dt);
        self.time_since_asteroid_spawn = advance_timer(self.time_since_asteroid_spawn, dt);
        if self.time_since_asteroid_spawn > ASTEROID_PERIOD && self.asteroids.len() < self.max_asteroids {
            self.spawn_asteroid();
            self.time_since_asteroid_spawn = 0;
        }
        self.time_since_saucer_spawn = advance_timer(self.time_since_saucer_spawn, dt);
        let ghost before = *self;
        if self.time_since_saucer_spawn > SAUCER_PERIOD && self.saucers.len() < MAX_SAUCERS
            && self.saucer_id_counter < usize::MAX {
            self.spawn_saucer();
            self.time_since_saucer_spawn = 0;
        }
        proof {
            let o = before.saucers@;
            let n = self.saucers@;
            assert(o == old(self).saucers@ && before.saucer_id_counter == old(self).saucer_id_counter);
            assert(n.len() == o.len() ==> n == o);
            assert forall|i: int| 0 <= i < n.len() implies 1 <= (#[trigger] n[i]).id < self.saucer_id_counter by {
                if n.len() > o.len() && i < o.len() {
                    assert(n[i] == n.drop_last()[i]);
                    assert(n.drop_last()[i] == o[i]);
                    assert(1 <= o[i].id < old(self).saucer_id_counter);
                } else if n.len() > o.len() {
                    assert(n[i] == n.last());
                } else {
                    assert(n[i] == o[i]);
                    assert(1 <= o[i].id < old(self).saucer_id_counter);
                }
            }
            assert forall|p: int, q: int| 0 <= p < q < n.len() implies (#[trigger] n[p]).id != (#[trigger] n[q]).id by {
                if n.len() > o.len() {
                    if q < o.len() {
                        assert(n[p] == n.drop_last()[p] && n[q] == n.drop_last()[q]);
                    } else {
                        assert(n[p] == n.drop_last()[p]);
                        assert(n[q] == n.last());
                    }
                }
            }
            assert(self.saucers_registered());
        }
    }

    /// The pilot's turn and the ship's burst check: a shot that is due
    /// leaves the ship's nose.
    fn pilot_phase(&mut self, dt: i64)
        requires
            old(self).wf(),
            0 < dt <= DT_LIMIT,
        ensures
            frame_fire(*old(self), *final(self), dt as int),
            final(self).player_ship.wf(),
            within(final(self).player_ship.x, final(self).player_ship.y, (PLAY_LIMIT + MOVE_LIMIT) as int),
            bullets_ok(final(self).bullets@, (PLAY_LIMIT + 2 * MOVE_LIMIT) as int),
    {
        let targets = self.threat_positions();
        proof {
            assert forall|i: int| 0 <= i < targets@.len() implies {
                &&& -TARGET_LIMIT <= (#[trigger] targets@[i]).0 <= TARGET_LIMIT
                &&& -TARGET_LIMIT <= targets@[i].1 <= TARGET_LIMIT
            } by {
                if i < self.asteroids@.len() {
                    assert(self.asteroids@[i].wf());
                } else {
                    let k = i - self.asteroids@.len();
                    assert(self.saucers@[k].wf());
                    assert(targets@[self.asteroids@.len() + k] == (self.saucers@[k].x, self.saucers@[k].y));
                }
            }
        }
        update_ship_ai(&mut self.player_ship, targets.as_slice(), dt);
        let ghost piloted_ship = self.player_ship;
        if self.player_ship.update_burst() {
            let b = create_bullet_from_ship(&self.player_ship, self.game_color);
            self.bullets.push(b);
        }
        proof {
            assert(piloted_among(*old(self), targets@, piloted_ship, dt as int));
        }
    }

    /// Advances the simulation one frame of `delta_time` microseconds; a
    /// step of zero or less changes nothing.
    #[verifier::rlimit(100)]
    pub fn update(&mut self, delta_time: i64)
        requires
            old(self).wf(),
            delta_time <= DT_LIMIT,
        ensures
            final(self).wf(),
            frame_outcome(*old(self), *final(self), delta_time as int),
            delta_time > 0 ==> {
                &&& within(final(self).player_ship.x, final(self).player_ship.y, WRAP_LIMIT as int)
                &&& bullets_ok(final(self).bullets@, WRAP_LIMIT as int)
                &&& asteroids_ok(final(self).asteroids@, WRAP_LIMIT as int)
            },
            delta_time > 0 ==> ({
                let dt = delta_time as int;
                let asteroid_timer = advanced(old(self).time_since_asteroid_spawn as int, dt);
                let asteroid_due = asteroid_timer > ASTEROID_PERIOD && old(self).asteroids@.len() < old(self).max_asteroids;
                let saucer_timer = advanced(old(self).time_since_saucer_spawn as int, dt);
                let saucer_due = saucer_timer > SAUCER_PERIOD && old(self).saucers@.len() < MAX_SAUCERS
                    && old(self).saucer_id_counter < usize::MAX;
                let death_timer = advanced(old(self).time_since_last_death as int, dt);
                &&& final(self).time_since_saucer_spawn == if saucer_due { 0 } else { saucer_timer }
                &&& final(self).saucer_id_counter == if saucer_due {
                    old(self).saucer_id_counter + 1
                } else {
                    old(self).saucer_id_counter as int
                }
                &&& {
                    ||| {
                        // no death this frame
                        &&& final(self).time_since_last_death == death_timer
                        &&& final(self).deaths_in_short_time == old(self).deaths_in_short_time
                        &&& final(self).time_since_asteroid_spawn == if asteroid_due { 0 } else { asteroid_timer }
                        &&& final(self).score >= old(self).score
                    }
                    ||| {
                        // the ship died and respawned
                        let (count, cleared) = death_outcome(old(self).deaths_in_short_time as int, death_timer);
                        &&& final(self).time_since_last_death == 0
                        &&& final(self).deaths_in_short_time == count
                        &&& final(self).score == old(self).score
                        &&& final(self).player_ship.vx == 0 && final(self).player_ship.vy == 0
                        &&& final(self).player_ship.angle == 0 && final(self).player_ship.energy == UNIT
                        &&& cleared ==> final(self).asteroids@.len() == 0 && final(self).bullets@.len() == 0
                            && final(self).time_since_asteroid_spawn == SPAWN_GRACE
                        &&& !cleared ==> final(self).time_since_asteroid_spawn == if asteroid_due { 0 } else { asteroid_timer }
                    }
                }
            }),
            final(self).max_asteroids == old(self).max_asteroids,
            final(self).width == old(self).width && final(self).height == old(self).height,
            final(self).game_color == old(self).game_color && final(self).hud_color == old(self).hud_color,
    {
        if delta_time <= 0 {
            return;
        }
        let dt = delta_time;
        self.begin_frame(dt);
        let ghost g1 = *self;
        self.pilot_phase(dt);
        let ghost g2 = *self;
        self.advance_saucers(dt);
        let ghost fired = self.bullets@;
        proof {
            assert forall|i: int| 0 <= i < self.saucers@.len() implies
                1 <= (#[trigger] self.saucers@[i]).id < self.saucer_id_counter by {
                assert(moved_saucer(self.saucers@[i], g2.saucers@, dt as int));
                let j = choose|j: int| 0 <= j < g2.saucers@.len() && #[trigger] moved_from(self.saucers@[i], g2.saucers@[j], dt as int);
                assert(g2.saucers@[j].id == g1.saucers@[j].id);
            }
            assert(self.saucers_registered());
        }
        self.advance_bullets(dt);
        self.advance_asteroids(dt);
        let ghost g3 = *self;
        let died = self.check_collisions();
        let ghost g4 = *self;
        proof {
            assert forall|i: int| 0 <= i < self.saucers@.len() implies
                1 <= (#[trigger] self.saucers@[i]).id < self.saucer_id_counter by {
                assert(self.saucers@[i].id == g3.saucers@[i].id);
            }
            assert forall|p: int, q: int| 0 <= p < q < self.saucers@.len() implies
                (#[trigger] self.saucers@[p]).id != (#[trigger] self.saucers@[q]).id by {
                assert(self.saucers@[p].id == g3.saucers@[p].id && self.saucers@[q].id == g3.saucers@[q].id);
            }
        }
        self.wrap_all();
        proof {
            assert(saucers_advanced(g2.saucers@, g2.bullets@, g3.saucers@, fired, dt as int));
            assert(moved(g2, g3, dt as int));
            assert(frame_chain(*old(self), g1, g2, g3, g4, died, *self, dt as int));
        }
    }

    /// Records the display size, which only presentation uses.
    pub fn resize(&mut self, width: u32, height: u32)
        ensures
            *final(self) == (GameState { width, height, ..*old(self) }),
    {
        self.width = width;
        self.height = height;
    }
}

impl Default for GameState {
    fn default() -> (g: GameState)
        ensures
            g.wf(),
            g.player_ship == Ship::new_spec(0, 0, Color { r: 0, g: 255, b: 84, a: 255 }, SHIP_ID),
            g.saucers@.len() == 0 && g.asteroids@.len() == 0 && g.bullets@.len() == 0,
            g.score == 0,
    {
        GameState::new()
    }
}

} // verus!
