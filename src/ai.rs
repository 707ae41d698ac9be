//! Companions: a diva that wiggles to charm flower heads, and a healer
//! that soothes the player's allergy.

use vstd::prelude::*;

use crate::bee::{proximity_step, proximity_step_exec, AllergyMeter, WiggleCooldown};
use crate::geometry::{
    along, dist, dist_sq, distance, distance_sq, nearest_dist, nearest_distance, offset_along,
    offset_toward, step_toward, toward, travel, Point, COORD_LIMIT, STEP_LIMIT,
};

verus! {

/// The diva wiggles for heads whose rizz is under this.
pub const AI_WIGGLE_THRESHOLD: u32 = 50_000;

/// Reach within which the diva cares about a head.
pub const DIVA_WIGGLE_REACH: u64 = 150_000;

/// World units per second of the diva.
pub const DIVA_MOVE_SPEED: u64 = 100;

/// The diva keeps this far from every head.
pub const SAFE_DISTANCE: u64 = 80_000;

/// The diva stays at least this far from the heads' center.
pub const OPTIMAL_WIGGLE_RANGE: u64 = 100_000;

/// ... and at most this far.
pub const DIVA_FAR_RANGE: u64 = 150_000;

/// How far the diva looks ahead when it corrects its range.
pub const DIVA_SHIFT: u64 = 20_000;

/// Most heads the diva can weigh at once: pushed away from all of them, it
/// still gets a direction from `offset_along`, whose vectors are bounded by
/// `VECTOR_LIMIT` to keep its arithmetic within 128 bits.
pub const MAX_HEADS: usize = 24_000;

/// The healer heads for the player once the player's meter is this full,
/// in thousandths.
pub const HEAL_THRESHOLD: u64 = 600;

/// Points per second the healer takes off the player's meter.
pub const HEAL_RATE: u32 = 20;

/// Reach of the healer.
pub const HEAL_RANGE: u64 = 40_000;

/// World units per second of the healer.
pub const HEALER_MOVE_SPEED: u64 = 120;

/// Allergy sensitivity of the healer, against a bee's.
pub const HEALER_ALLERGY_MULTIPLIER: u32 = 2;

/// Points per second the healer's meter gains right at a head, before its
/// sensitivity.
pub const HEALER_BASE_GAIN: u32 = 50;

/// Distance under which the healer's allergy builds up.
pub const HEALER_PROXIMITY_THRESHOLD: u64 = 200_000;

/// Points per second the healer's meter loses away from heads.
pub const HEALER_DECAY_RATE: u32 = 5;

#[derive(Clone, Copy, Debug, Default, PartialEq, Eq, Structural)]
pub struct AiDiva;

#[derive(Clone, Copy, Debug, Default, PartialEq, Eq, Structural)]
pub struct PlayerBee;

#[derive(Clone, Copy, Debug, PartialEq, Eq, Structural)]
pub struct AiHealer {
    /// How much faster than a bee its allergy builds up.
    pub sensitivity: u32,
}

impl Default for AiHealer {
    fn default() -> (h: AiHealer)
        ensures
            h.sensitivity == HEALER_ALLERGY_MULTIPLIER,
    {
        AiHealer { sensitivity: HEALER_ALLERGY_MULTIPLIER }
    }
}

/// A head within reach of the diva that needs attention.
pub open spec fn needs_wiggle(diva: Point, head: Point, rizz: u32) -> bool {
    dist_sq(diva, head) <= DIVA_WIGGLE_REACH * DIVA_WIGGLE_REACH && rizz < AI_WIGGLE_THRESHOLD
}

/// Whether the diva starts a wiggle: its cooldown is over and a head within
/// reach has low rizz. `rizz[i]` is the rizz of the head at `heads[i]`.
pub fn ai_diva_wiggle(
    diva: Point,
    cooldown: Option<WiggleCooldown>,
    heads: &Vec<Point>,
    rizz: &Vec<u32>,
) -> (r: bool)
    requires
        diva.in_world(),
        heads.len() == rizz.len(),
        forall|i: int| 0 <= i < heads.len() ==> (#[trigger] heads[i]).in_world(),
        cooldown matches Some(c) ==> c.timer.wf(),
    ensures
        r == ((cooldown matches Some(c) ==> c.ready()) && exists|i: int|
            0 <= i < heads.len() && needs_wiggle(diva, #[trigger] heads[i], rizz[i])),
{
    match cooldown {
        Some(c) => {
            if !c.is_ready() {
                return false;
            }
        },
        None => {},
    }
    let mut i: usize = 0;
    while i < heads.len()
        invariant
            diva.in_world(),
            heads.len() == rizz.len(),
            forall|j: int| 0 <= j < heads.len() ==> (#[trigger] heads[j]).in_world(),
            i <= heads.len(),
            cooldown matches Some(c) ==> c.ready(),
            forall|j: int| 0 <= j < i ==> !needs_wiggle(diva, #[trigger] heads[j], rizz[j]),
        decreases heads.len() - i,
    {
        if distance_sq(diva, heads[i]) <= DIVA_WIGGLE_REACH * DIVA_WIGGLE_REACH
            && rizz[i] < AI_WIGGLE_THRESHOLD {
            assert(needs_wiggle(diva, heads[i as int], rizz[i as int]));
            return true;
        }
        i = i + 1;
    }
    false
}

pub open spec fn sum_x(s: Seq<Point>) -> int
    decreases s.len(),
{
    if s.len() == 0 {
        0
    } else {
        sum_x(s.drop_last()) + s.last().x
    }
}

pub open spec fn sum_y(s: Seq<Point>) -> int
    decreases s.len(),
{
    if s.len() == 0 {
        0
    } else {
        sum_y(s.drop_last()) + s.last().y
    }
}

/// `a / n` rounded toward zero.
pub open spec fn div_to_zero(a: int, n: int) -> int {
    if a >= 0 {
        a / n
    } else {
        -((-a) / n)
    }
}

/// The center of mass of `s`, each coordinate rounded toward zero.
pub open spec fn center(s: Seq<Point>) -> Point {
    Point {
        x: div_to_zero(sum_x(s), s.len() as int) as i64,
        y: div_to_zero(sum_y(s), s.len() as int) as i64,
    }
}

/// The push away from every head of `s` nearer than `SAFE_DISTANCE` (but
/// not on the diva itself), by how much nearer it is.
pub open spec fn avoidance(diva: Point, s: Seq<Point>) -> (int, int)
    decreases s.len(),
{
    if s.len() == 0 {
        (0, 0)
    } else {
        let a = avoidance(diva, s.drop_last());
        let d = dist(diva, s.last());
        if dist_sq(diva, s.last()) > 0 && d < SAFE_DISTANCE {
            let o = toward(diva, s.last(), SAFE_DISTANCE - d);
            (a.0 - o.x, a.1 - o.y)
        } else {
            a
        }
    }
}

/// Where the diva wants to go, relative to itself, to keep its range to
/// the heads' center: away when nearer than `OPTIMAL_WIGGLE_RANGE`,
/// closer when beyond `DIVA_FAR_RANGE`.
pub open spec fn range_correction(diva: Point, s: Seq<Point>) -> (int, int) {
    let c = center(s);
    let t = toward(diva, c, DIVA_SHIFT as int);
    if dist(diva, c) < OPTIMAL_WIGGLE_RANGE {
        (-t.x, -t.y)
    } else if dist_sq(diva, c) > DIVA_FAR_RANGE * DIVA_FAR_RANGE {
        (t.x as int, t.y as int)
    } else {
        (0, 0)
    }
}

/// The diva's move for `delta_ms` among heads at `s`.
pub open spec fn diva_move(diva: Point, s: Seq<Point>, delta: int) -> Point {
    if s.len() == 0 {
        Point { x: 0, y: 0 }
    } else {
        let g = range_correction(diva, s);
        let a = avoidance(diva, s);
        along(g.0 + a.0, g.1 + a.1, travel(DIVA_MOVE_SPEED as int, delta))
    }
}

fn div_to_zero_exec(a: i64, n: i64) -> (r: i64)
    requires
        0 < n <= MAX_HEADS,
        -(n * COORD_LIMIT) <= a <= n * COORD_LIMIT,
    ensures
        r == div_to_zero(a as int, n as int),
        -COORD_LIMIT <= r <= COORD_LIMIT,
{
    let m: i64 = if a >= 0 {
        a
    } else {
        -a
    };
    proof {
        vstd::arithmetic::div_mod::lemma_div_is_ordered(m as int, n * COORD_LIMIT, n as int);
        vstd::arithmetic::div_mod::lemma_div_multiples_vanish(COORD_LIMIT as int, n as int);
        vstd::arithmetic::div_mod::lemma_div_pos_is_pos(m as int, n as int);
    }
    let q = m / n;
    if a >= 0 {
        q
    } else {
        -q
    }
}

/// The diva's move for `delta_ms`: toward a point at a good range from the
/// heads' center, pushed away from heads that are too near, at
/// `DIVA_MOVE_SPEED`. No move without heads.
pub fn ai_diva_movement(diva: Point, heads: &Vec<Point>, delta_ms: u32) -> (o: Point)
    requires
        diva.in_world(),
        heads.len() <= MAX_HEADS,
        forall|i: int| 0 <= i < heads.len() ==> (#[trigger] heads[i]).in_world(),
    ensures
        o == diva_move(diva, heads@, delta_ms as int),
{
    let n = heads.len();
    if n == 0 {
        return Point { x: 0, y: 0 };
    }
    let mut sx: i64 = 0;
    let mut sy: i64 = 0;
    let mut i: usize = 0;
    while i < n
        invariant
            n == heads.len(),
            n <= MAX_HEADS,
            forall|j: int| 0 <= j < heads.len() ==> (#[trigger] heads[j]).in_world(),
            i <= n,
            sx == sum_x(heads@.subrange(0, i as int)),
            sy == sum_y(heads@.subrange(0, i as int)),
            -(i * COORD_LIMIT) <= sx <= i * COORD_LIMIT,
            -(i * COORD_LIMIT) <= sy <= i * COORD_LIMIT,
        decreases n - i,
    {
        proof {
            let s = heads@.subrange(0, i as int + 1);
            assert(s.drop_last() =~= heads@.subrange(0, i as int));
        }
        sx = sx + heads[i].x;
        sy = sy + heads[i].y;
        i = i + 1;
    }
    proof {
        assert(heads@.subrange(0, n as int) =~= heads@);
    }
    let c = Point { x: div_to_zero_exec(sx, n as i64), y: div_to_zero_exec(sy, n as i64) };
    let dc = distance(diva, c);
    let dc2 = distance_sq(diva, c);
    let t = offset_toward(diva, c, DIVA_SHIFT);
    let (gx, gy): (i64, i64) = if dc < OPTIMAL_WIGGLE_RANGE {
        (-t.x, -t.y)
    } else if dc2 > DIVA_FAR_RANGE * DIVA_FAR_RANGE {
        (t.x, t.y)
    } else {
        (0, 0)
    };
    let mut ax: i64 = 0;
    let mut ay: i64 = 0;
    let mut k: usize = 0;
    while k < n
        invariant
            n == heads.len(),
            n <= MAX_HEADS,
            diva.in_world(),
            forall|j: int| 0 <= j < heads.len() ==> (#[trigger] heads[j]).in_world(),
            k <= n,
            (ax as int, ay as int) == avoidance(diva, heads@.subrange(0, k as int)),
            -(k * SAFE_DISTANCE) <= ax <= k * SAFE_DISTANCE,
            -(k * SAFE_DISTANCE) <= ay <= k * SAFE_DISTANCE,
        decreases n - k,
    {
        proof {
            let s = heads@.subrange(0, k as int + 1);
            assert(s.drop_last() =~= heads@.subrange(0, k as int));
        }
        let d = distance(diva, heads[k]);
        if distance_sq(diva, heads[k]) > 0 && d < SAFE_DISTANCE {
            let o = offset_toward(diva, heads[k], SAFE_DISTANCE - d);
            ax = ax - o.x;
            ay = ay - o.y;
        }
        k = k + 1;
    }
    proof {
        assert(heads@.subrange(0, n as int) =~= heads@);
    }
    proof {
        assert(DIVA_MOVE_SPEED * delta_ms <= 100 * u32::MAX);
    }
    let d = DIVA_MOVE_SPEED * (delta_ms as u64);
    let step = if d <= STEP_LIMIT {
        d
    } else {
        STEP_LIMIT
    };
    offset_along(gx + ax, gy + ay, step)
}

/// The player's meter is full enough to call the healer: at least
/// `HEAL_THRESHOLD` thousandths (an empty scale counts as full).
pub open spec fn needs_healing(m: AllergyMeter) -> bool {
    !(m.value * 1000 < HEAL_THRESHOLD * m.max)
}

/// The healer's move for `delta_ms` toward the player, once the player's
/// meter calls for it and while it is out of reach.
pub fn ai_healer_movement(healer: Point, player: Point, player_allergy: &AllergyMeter, delta_ms: u32) -> (o:
    Point)
    requires
        healer.in_world(),
        player.in_world(),
    ensures
        !needs_healing(*player_allergy) || dist_sq(healer, player) <= HEAL_RANGE * HEAL_RANGE ==> o == (Point {
            x: 0,
            y: 0,
        }),
        needs_healing(*player_allergy) && dist_sq(healer, player) > HEAL_RANGE * HEAL_RANGE ==> o == toward(
            healer,
            player,
            travel(HEALER_MOVE_SPEED as int, delta_ms as int),
        ),
{
    if (player_allergy.value as u64) * 1000 < HEAL_THRESHOLD * (player_allergy.max as u64) {
        return Point { x: 0, y: 0 };
    }
    if distance_sq(healer, player) <= HEAL_RANGE * HEAL_RANGE {
        return Point { x: 0, y: 0 };
    }
    step_toward(healer, player, HEALER_MOVE_SPEED, delta_ms)
}

/// A healer within reach of the player at `player`.
pub open spec fn healer_nearby(player: Point, healers: Seq<Point>) -> bool {
    exists|i: int| 0 <= i < healers.len() && dist_sq(player, #[trigger] healers[i]) <= HEAL_RANGE * HEAL_RANGE
}

/// While a healer is within reach, the player's meter loses `HEAL_RATE`
/// points a second, down to zero.
pub fn ai_healer_heal(player: Point, healers: &Vec<Point>, meter: &mut AllergyMeter, delta_ms: u32)
    requires
        player.in_world(),
        forall|i: int| 0 <= i < healers.len() ==> (#[trigger] healers[i]).in_world(),
    ensures
        final(meter).max == old(meter).max,
        final(meter).value == (if healer_nearby(player, healers@) && old(meter).value > 0 {
            if old(meter).value >= HEAL_RATE * delta_ms {
                old(meter).value - HEAL_RATE * delta_ms
            } else {
                0
            }
        } else {
            old(meter).value as int
        }),
{
    let mut nearby = false;
    let mut i: usize = 0;
    while i < healers.len()
        invariant
            player.in_world(),
            forall|j: int| 0 <= j < healers.len() ==> (#[trigger] healers[j]).in_world(),
            i <= healers.len(),
            nearby == exists|j: int|
                0 <= j < i && dist_sq(player, #[trigger] healers[j]) <= HEAL_RANGE * HEAL_RANGE,
        decreases healers.len() - i,
    {
        if distance_sq(player, healers[i]) <= HEAL_RANGE * HEAL_RANGE {
            assert(dist_sq(player, healers[i as int]) <= HEAL_RANGE * HEAL_RANGE);
            nearby = true;
        }
        i = i + 1;
    }
    if nearby && meter.value > 0 {
        assert(HEAL_RATE * delta_ms <= 20 * u32::MAX);
        let loss = (HEAL_RATE as u64) * (delta_ms as u64);
        if (meter.value as u64) >= loss {
            meter.value = ((meter.value as u64) - loss) as u32;
        } else {
            meter.value = 0;
        }
    }
}

/// The healer's own allergy for `delta_ms` at `pos` among heads at
/// `heads`: as a bee's, but building up `sensitivity` times faster.
pub fn update_healer_allergy(
    meter: &mut AllergyMeter,
    healer: &AiHealer,
    pos: Point,
    heads: &Vec<Point>,
    delta_ms: u32,
)
    requires
        HEALER_BASE_GAIN * healer.sensitivity <= u32::MAX,
        pos.in_world(),
        forall|i: int| 0 <= i < heads.len() ==> (#[trigger] heads[i]).in_world(),
    ensures
        final(meter).max == old(meter).max,
        final(meter).value == proximity_step(
            old(meter).value as int,
            old(meter).max as int,
            nearest_dist(pos, heads@),
            HEALER_BASE_GAIN * healer.sensitivity,
            HEALER_PROXIMITY_THRESHOLD as int,
            HEALER_DECAY_RATE as int,
            delta_ms as int,
        ),
{
    let near = nearest_distance(pos, heads);
    meter.value =
    proximity_step_exec(
        meter.value,
        meter.max,
        near,
        HEALER_BASE_GAIN * healer.sensitivity,
        HEALER_PROXIMITY_THRESHOLD,
        HEALER_DECAY_RATE,
        delta_ms,
    );
}

} // verus!
