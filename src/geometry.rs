//! Points of the play field and the distances between them.
//!
//! Coordinates are thousandths of a world unit. Distances are whole
//! thousandths, rounded down from the true Euclidean distance.

use vstd::prelude::*;

verus! {

/// How far from the origin a coordinate may lie (a million world units), so
/// that squared distances fit in 64 bits.
pub const COORD_LIMIT: i64 = 1_000_000_000;

#[derive(Clone, Copy, Debug, PartialEq, Eq, Structural)]
pub struct Point {
    pub x: i64,
    pub y: i64,
}

impl Point {
    pub open spec fn in_world(self) -> bool {
        -COORD_LIMIT <= self.x <= COORD_LIMIT && -COORD_LIMIT <= self.y <= COORD_LIMIT
    }

    pub fn new(x: i64, y: i64) -> (p: Point)
        ensures
            p.x == x,
            p.y == y,
    {
        Point { x, y }
    }
}

pub open spec fn dist_sq(a: Point, b: Point) -> int {
    (b.x - a.x) * (b.x - a.x) + (b.y - a.y) * (b.y - a.y)
}

/// The longest single move, in thousandths of a world unit: some four
/// million world units, more than the world is wide. Its square fits in 64
/// bits.
pub const STEP_LIMIT: u64 = 0xffff_ffff;

/// The largest coordinate of a vector that can be given a direction: any
/// difference of two points of the world.
pub const VECTOR_LIMIT: i64 = 2_000_000_000;

/// `r` is the square root of `x`, rounded down.
pub open spec fn is_floor_root(r: int, x: int) -> bool {
    0 <= r && r * r <= x < (r + 1) * (r + 1)
}

/// The square root of a natural number, rounded down.
pub open spec fn floor_root(x: nat) -> nat {
    choose|r: nat| is_floor_root(r as int, x as int)
}

/// The distance from `a` to `b`, in whole thousandths.
pub open spec fn dist(a: Point, b: Point) -> nat {
    floor_root(dist_sq(a, b) as nat)
}

/// `s[k]` is nearest to `from` of all points of `s`, and no point before it
/// is as near.
pub open spec fn is_nearest(from: Point, s: Seq<Point>, k: int) -> bool {
    &&& 0 <= k < s.len()
    &&& forall|j: int| 0 <= j < s.len() ==> dist_sq(from, s[k]) <= dist_sq(from, #[trigger] s[j])
    &&& forall|j: int| 0 <= j < k ==> dist_sq(from, s[k]) < dist_sq(from, #[trigger] s[j])
}

/// The smallest squared distance from `from` to a point of `s` (zero for
/// no points).
pub open spec fn min_dist_sq(from: Point, s: Seq<Point>) -> int
    decreases s.len(),
{
    if s.len() == 0 {
        0
    } else if s.len() == 1 {
        dist_sq(from, s[0])
    } else {
        let rest = min_dist_sq(from, s.drop_last());
        let last = dist_sq(from, s.last());
        if last < rest {
            last
        } else {
            rest
        }
    }
}

/// The distance from `from` to the nearest point of `s`, in whole
/// thousandths; `None` when there are no points.
pub open spec fn nearest_dist(from: Point, s: Seq<Point>) -> Option<nat> {
    if s.len() == 0 {
        None
    } else {
        Some(floor_root(min_dist_sq(from, s) as nat))
    }
}

/// The size of `a`.
pub open spec fn magnitude(a: int) -> int {
    if a >= 0 {
        a
    } else {
        -a
    }
}

/// The square root of `q`, rounded down, with the sign of `v`.
pub open spec fn signed_root(v: int, q: int) -> int {
    if v >= 0 {
        floor_root(q as nat) as int
    } else {
        -(floor_root(q as nat) as int)
    }
}

/// The move of `step` thousandths along the vector `(vx, vy)`: each
/// component is `v * step / |(vx, vy)|`, scaled by the exact length and
/// rounded toward zero (the root of `v² step² / (vx² + vy²)`, rounded
/// down); no move along the zero vector.
pub open spec fn along(vx: int, vy: int, step: int) -> Point {
    let d2 = vx * vx + vy * vy;
    if d2 == 0 {
        Point { x: 0, y: 0 }
    } else {
        Point {
            x: signed_root(vx, vx * vx * (step * step) / d2) as i64,
            y: signed_root(vy, vy * vy * (step * step) / d2) as i64,
        }
    }
}

/// The move of `step` thousandths from `from` toward `to`.
pub open spec fn toward(from: Point, to: Point, step: int) -> Point {
    along(to.x - from.x, to.y - from.y, step)
}

/// The distance covered at `speed` world units a second over `delta`
/// milliseconds, in thousandths, at most `STEP_LIMIT`.
pub open spec fn travel(speed: int, delta: int) -> int {
    if speed * delta <= STEP_LIMIT {
        speed * delta
    } else {
        STEP_LIMIT as int
    }
}

/// Relies on `u64::isqrt`: the square root rounded down.
#[verifier::external_body]
fn isqrt(x: u64) -> (r: u64)
    ensures
        is_floor_root(r as int, x as int),
{
    x.isqrt()
}

proof fn lemma_floor_root_unique(r: int, x: int)
    requires
        is_floor_root(r, x),
    ensures
        floor_root(x as nat) == r,
{
    let r2 = floor_root(x as nat);
    assert(is_floor_root(r2 as int, x));
    if r2 < r {
        assert((r2 + 1) * (r2 + 1) <= r * r) by (nonlinear_arith)
            requires
                0 <= r2 < r,
        ;
    } else if r2 > r {
        assert((r + 1) * (r + 1) <= r2 * r2) by (nonlinear_arith)
            requires
                0 <= r < r2,
        ;
    }
}

proof fn lemma_min_dist_sq_is_least(from: Point, s: Seq<Point>, j: int)
    requires
        0 <= j < s.len(),
    ensures
        min_dist_sq(from, s) <= dist_sq(from, s[j]),
    decreases s.len(),
{
    if s.len() > 1 && j < s.len() - 1 {
        lemma_min_dist_sq_is_least(from, s.drop_last(), j);
    }
}

proof fn lemma_min_dist_sq_is_reached(from: Point, s: Seq<Point>)
    requires
        s.len() > 0,
    ensures
        exists|j: int| 0 <= j < s.len() && min_dist_sq(from, s) == dist_sq(from, s[j]),
    decreases s.len(),
{
    if s.len() == 1 {
        assert(min_dist_sq(from, s) == dist_sq(from, s[0]));
    } else {
        lemma_min_dist_sq_is_reached(from, s.drop_last());
        let j = choose|j: int|
            0 <= j < s.drop_last().len() && min_dist_sq(from, s.drop_last()) == dist_sq(
                from,
                s.drop_last()[j],
            );
        if dist_sq(from, s.last()) >= min_dist_sq(from, s.drop_last()) {
            assert(min_dist_sq(from, s) == dist_sq(from, s[j]));
        } else {
            assert(min_dist_sq(from, s) == dist_sq(from, s[s.len() - 1]));
        }
    }
}

/// A point no farther than any other of `s` is at the smallest distance.
proof fn lemma_least_is_min(from: Point, s: Seq<Point>, k: int)
    requires
        0 <= k < s.len(),
        forall|j: int| 0 <= j < s.len() ==> dist_sq(from, s[k]) <= dist_sq(from, #[trigger] s[j]),
    ensures
        min_dist_sq(from, s) == dist_sq(from, s[k]),
{
    lemma_min_dist_sq_is_least(from, s, k);
    lemma_min_dist_sq_is_reached(from, s);
}

proof fn lemma_floor_root_exists(x: nat)
    ensures
        is_floor_root(floor_root(x) as int, x as int),
    decreases x,
{
    if x == 0 {
        assert(is_floor_root(0nat as int, 0));
        assert(exists|r: nat| is_floor_root(r as int, x as int));
    } else {
        lemma_floor_root_exists((x - 1) as nat);
        let r = floor_root((x - 1) as nat);
        if (r + 1) * (r + 1) <= x {
            let w: nat = r + 1;
            assert(w * w <= x < (w + 1) * (w + 1)) by (nonlinear_arith)
                requires
                    w == r + 1,
                    w * w <= x,
                    x - 1 < w * w,
            ;
            assert(is_floor_root(w as int, x as int));
        } else {
            assert(is_floor_root(r as int, x as int));
        }
        assert(exists|r: nat| is_floor_root(r as int, x as int));
    }
}

/// The rounded-down root of `v² s² / d2` brackets `|v| s / √d2`.
proof fn lemma_root_component(v: int, d2: int, s: int)
    requires
        d2 > 0,
        v * v <= d2,
        s >= 0,
    ensures
        ({
            let r = floor_root((v * v * (s * s) / d2) as nat) as int;
            &&& 0 <= r <= s
            &&& r * r * d2 <= v * v * (s * s)
            &&& v * v * (s * s) < (r + 1) * (r + 1) * d2
            &&& s * s <= d2 ==> r <= magnitude(v)
        }),
{
    let n = v * v * (s * s);
    assert(0 <= v * v && 0 <= s * s) by (nonlinear_arith);
    assert(0 <= n) by (nonlinear_arith)
        requires
            n == v * v * (s * s),
            0 <= v * v,
            0 <= s * s,
    ;
    let q = n / d2;
    vstd::arithmetic::div_mod::lemma_fundamental_div_mod(n, d2);
    vstd::arithmetic::div_mod::lemma_mod_bound(n, d2);
    vstd::arithmetic::div_mod::lemma_div_pos_is_pos(n, d2);
    lemma_floor_root_exists(q as nat);
    let r = floor_root(q as nat) as int;
    assert(r * r * d2 <= q * d2) by (nonlinear_arith)
        requires
            r * r <= q,
            d2 > 0,
    ;
    assert(q * d2 <= n && n < (q + 1) * d2) by (nonlinear_arith)
        requires
            n == d2 * q + n % d2,
            0 <= n % d2 < d2,
    ;
    assert((r + 1) * (r + 1) * d2 >= (q + 1) * d2) by (nonlinear_arith)
        requires
            (r + 1) * (r + 1) >= q + 1,
            d2 > 0,
    ;
    assert(n <= d2 * (s * s)) by (nonlinear_arith)
        requires
            v * v <= d2,
            s * s >= 0,
            n == v * v * (s * s),
    ;
    assert(q <= s * s) by (nonlinear_arith)
        requires
            q * d2 <= d2 * (s * s),
            d2 > 0,
    ;
    assert(r <= s) by (nonlinear_arith)
        requires
            r * r <= s * s,
            r >= 0,
            s >= 0,
    ;
    if s * s <= d2 {
        assert(n <= v * v * d2) by (nonlinear_arith)
            requires
                s * s <= d2,
                v * v >= 0,
                n == v * v * (s * s),
        ;
        assert(q <= v * v) by (nonlinear_arith)
            requires
                q * d2 <= v * v * d2,
                d2 > 0,
        ;
        assert(r <= magnitude(v)) by (nonlinear_arith)
            requires
                r * r <= v * v,
                r >= 0,
                magnitude(v) == (if v >= 0 {
                    v
                } else {
                    -v
                }),
        ;
    }
}

/// A move along a vector is never longer than the step, and, unless the
/// vector is zero, falls short of it by less than the rounding of each
/// component; each component stays within the step, and within the vector
/// itself when the vector is at least as long as the step.
pub proof fn lemma_along_length(vx: int, vy: int, step: int)
    requires
        -VECTOR_LIMIT <= vx <= VECTOR_LIMIT,
        -VECTOR_LIMIT <= vy <= VECTOR_LIMIT,
        0 <= step <= STEP_LIMIT,
    ensures
        ({
            let o = along(vx, vy, step);
            &&& o.x * o.x + o.y * o.y <= step * step
            &&& (vx != 0 || vy != 0) ==> step * step < (magnitude(o.x as int) + 1) * (
            magnitude(o.x as int) + 1) + (magnitude(o.y as int) + 1) * (magnitude(o.y as int)
                + 1)
            &&& -step <= o.x <= step
            &&& -step <= o.y <= step
            &&& step * step <= vx * vx + vy * vy ==> (vx >= 0 ==> 0 <= o.x <= vx) && (vx < 0
                ==> vx <= o.x <= 0)
            &&& step * step <= vx * vx + vy * vy ==> (vy >= 0 ==> 0 <= o.y <= vy) && (vy < 0
                ==> vy <= o.y <= 0)
        }),
{
    let d2 = vx * vx + vy * vy;
    assert(0 <= vx * vx && 0 <= vy * vy) by (nonlinear_arith);
    if d2 == 0 {
        assert(vx == 0 && vy == 0) by (nonlinear_arith)
            requires
                vx * vx + vy * vy == 0,
        ;
        assert(0 <= step * step) by (nonlinear_arith);
    } else {
        let s = step;
        lemma_root_component(vx, d2, s);
        lemma_root_component(vy, d2, s);
        let rx = floor_root((vx * vx * (s * s) / d2) as nat) as int;
        let ry = floor_root((vy * vy * (s * s) / d2) as nat) as int;
        let o = along(vx, vy, step);
        assert(o.x * o.x == rx * rx && magnitude(o.x as int) == rx) by (nonlinear_arith)
            requires
                o.x == (if vx >= 0 {
                    rx
                } else {
                    -rx
                }),
                rx >= 0,
                magnitude(o.x as int) == (if o.x >= 0 {
                    o.x as int
                } else {
                    -o.x
                }),
        ;
        assert(o.y * o.y == ry * ry && magnitude(o.y as int) == ry) by (nonlinear_arith)
            requires
                o.y == (if vy >= 0 {
                    ry
                } else {
                    -ry
                }),
                ry >= 0,
                magnitude(o.y as int) == (if o.y >= 0 {
                    o.y as int
                } else {
                    -o.y
                }),
        ;
        assert(rx * rx + ry * ry <= s * s) by (nonlinear_arith)
            requires
                rx * rx * d2 <= vx * vx * (s * s),
                ry * ry * d2 <= vy * vy * (s * s),
                d2 == vx * vx + vy * vy,
                d2 > 0,
        ;
        assert(s * s < (rx + 1) * (rx + 1) + (ry + 1) * (ry + 1)) by (nonlinear_arith)
            requires
                vx * vx * (s * s) < (rx + 1) * (rx + 1) * d2,
                vy * vy * (s * s) < (ry + 1) * (ry + 1) * d2,
                d2 == vx * vx + vy * vy,
                d2 > 0,
        ;
    }
}

/// The squared distance from `a` to `b`.
pub fn distance_sq(a: Point, b: Point) -> (r: u64)
    requires
        a.in_world(),
        b.in_world(),
    ensures
        r == dist_sq(a, b),
{
    let dx = b.x - a.x;
    let dy = b.y - a.y;
    proof {
        assert(0 <= dx * dx <= 4_000_000_000_000_000_000) by (nonlinear_arith)
            requires
                -2_000_000_000 <= dx <= 2_000_000_000,
        ;
        assert(0 <= dy * dy <= 4_000_000_000_000_000_000) by (nonlinear_arith)
            requires
                -2_000_000_000 <= dy <= 2_000_000_000,
        ;
    }
    let dx2 = (dx as i128) * (dx as i128);
    let dy2 = (dy as i128) * (dy as i128);
    (dx2 + dy2) as u64
}

/// The distance from `a` to `b`, rounded down to whole thousandths.
pub fn distance(a: Point, b: Point) -> (r: u64)
    requires
        a.in_world(),
        b.in_world(),
    ensures
        r == dist(a, b),
        is_floor_root(r as int, dist_sq(a, b)),
{
    let r = isqrt(distance_sq(a, b));
    proof {
        lemma_floor_root_unique(r as int, dist_sq(a, b));
    }
    r
}

/// The index of the point nearest to `from`; the first of those equally
/// near; `None` when there are no points.
pub fn nearest(from: Point, points: &Vec<Point>) -> (r: Option<usize>)
    requires
        from.in_world(),
        forall|i: int| 0 <= i < points.len() ==> (#[trigger] points[i]).in_world(),
    ensures
        r is None <==> points.len() == 0,
        r matches Some(k) ==> is_nearest(from, points@, k as int),
{
    if points.len() == 0 {
        return None;
    }
    let mut best: usize = 0;
    let mut best_d = distance_sq(from, points[0]);
    let mut i: usize = 1;
    while i < points.len()
        invariant
            from.in_world(),
            forall|j: int| 0 <= j < points.len() ==> (#[trigger] points[j]).in_world(),
            1 <= i <= points.len(),
            best < i,
            best_d == dist_sq(from, points[best as int]),
            forall|j: int| 0 <= j < i ==> best_d <= dist_sq(from, #[trigger] points[j]),
            forall|j: int| 0 <= j < best ==> best_d < dist_sq(from, #[trigger] points[j]),
        decreases points.len() - i,
    {
        let d = distance_sq(from, points[i]);
        if d < best_d {
            best = i;
            best_d = d;
        }
        i = i + 1;
    }
    Some(best)
}

/// The distance from `from` to the nearest of `points`, rounded down to
/// whole thousandths; `None` when there are no points.
pub fn nearest_distance(from: Point, points: &Vec<Point>) -> (r: Option<u64>)
    requires
        from.in_world(),
        forall|i: int| 0 <= i < points.len() ==> (#[trigger] points[i]).in_world(),
    ensures
        r matches Some(d) ==> nearest_dist(from, points@) == Some(d as nat),
        r is None ==> nearest_dist(from, points@) is None,
{
    match nearest(from, points) {
        None => None,
        Some(k) => {
            proof {
                lemma_least_is_min(from, points@, k as int);
            }
            Some(distance(from, points[k]))
        },
    }
}

/// `signed_root(v, v² step² / (v² + w²))`, in 128-bit arithmetic.
fn along_component(v: i64, w: i64, step: u64) -> (r: i64)
    requires
        -VECTOR_LIMIT <= v <= VECTOR_LIMIT,
        -VECTOR_LIMIT <= w <= VECTOR_LIMIT,
        v * v + w * w > 0,
        step <= STEP_LIMIT,
    ensures
        r == signed_root(v as int, v * v * (step * step) / (v * v + w * w)),
        -(step as int) <= r <= step,
{
    let m: u64 = if v >= 0 {
        v as u64
    } else {
        (-v) as u64
    };
    let n: u64 = if w >= 0 {
        w as u64
    } else {
        (-w) as u64
    };
    let ghost d2 = v * v + w * w;
    proof {
        assert(m * m == v * v && n * n == w * w) by (nonlinear_arith)
            requires
                m == (if v >= 0 {
                    v as int
                } else {
                    -v
                }),
                n == (if w >= 0 {
                    w as int
                } else {
                    -w
                }),
        ;
        assert(m * m <= 4_000_000_000_000_000_000 && n * n <= 4_000_000_000_000_000_000)
            by (nonlinear_arith)
            requires
                m <= 2_000_000_000,
                n <= 2_000_000_000,
        ;
        assert(step * step <= 0xffff_ffff * 0xffff_ffff) by (nonlinear_arith)
            requires
                step <= 0xffff_ffff,
        ;
        assert(m * m * (step * step) <= 4_000_000_000_000_000_000 * (0xffff_ffff * 0xffff_ffff))
            by (nonlinear_arith)
            requires
                0 <= m * m <= 4_000_000_000_000_000_000,
                0 <= step * step <= 0xffff_ffff * 0xffff_ffff,
        ;
        lemma_root_component(v as int, d2, step as int);
        assert(v * v * (step * step) / d2 <= step * step) by {
            assert(v * v * (step * step) <= d2 * (step * step)) by (nonlinear_arith)
                requires
                    v * v <= d2,
                    step * step >= 0,
            ;
            vstd::arithmetic::div_mod::lemma_div_is_ordered(
                v * v * (step * step),
                d2 * (step * step),
                d2,
            );
            vstd::arithmetic::div_mod::lemma_div_multiples_vanish(step * step, d2);
        }
    }
    let d2e = (m as u128) * (m as u128) + (n as u128) * (n as u128);
    let s2 = (step as u128) * (step as u128);
    let q = (m as u128) * (m as u128) * s2 / d2e;
    let r = isqrt(q as u64);
    proof {
        lemma_floor_root_unique(r as int, q as int);
    }
    if v >= 0 {
        r as i64
    } else {
        -(r as i64)
    }
}

/// The move of `step` thousandths along the vector `(vx, vy)`: each
/// component scaled by the vector's exact length and rounded toward zero;
/// no move along the zero vector.
pub fn offset_along(vx: i64, vy: i64, step: u64) -> (o: Point)
    requires
        -VECTOR_LIMIT <= vx <= VECTOR_LIMIT,
        -VECTOR_LIMIT <= vy <= VECTOR_LIMIT,
        step <= STEP_LIMIT,
    ensures
        o == along(vx as int, vy as int, step as int),
        o.x * o.x + o.y * o.y <= step * step,
        vx != 0 || vy != 0 ==> step * step < (magnitude(o.x as int) + 1) * (magnitude(o.x as int)
            + 1) + (magnitude(o.y as int) + 1) * (magnitude(o.y as int) + 1),
        -(step as int) <= o.x <= step,
        -(step as int) <= o.y <= step,
        step * step <= vx * vx + vy * vy ==> (vx >= 0 ==> 0 <= o.x <= vx) && (vx < 0 ==> vx <= o.x
            <= 0),
        step * step <= vx * vx + vy * vy ==> (vy >= 0 ==> 0 <= o.y <= vy) && (vy < 0 ==> vy <= o.y
            <= 0),
{
    proof {
        lemma_along_length(vx as int, vy as int, step as int);
    }
    if vx == 0 && vy == 0 {
        assert(vx * vx + vy * vy == 0) by (nonlinear_arith)
            requires
                vx == 0,
                vy == 0,
        ;
        return Point { x: 0, y: 0 };
    }
    proof {
        assert(vx * vx + vy * vy > 0) by (nonlinear_arith)
            requires
                vx != 0 || vy != 0,
        ;
    }
    let x = along_component(vx, vy, step);
    let y = along_component(vy, vx, step);
    proof {
        assert(vy * vy + vx * vx == vx * vx + vy * vy);
    }
    Point { x, y }
}

/// The move of `step` thousandths from `from` toward `to` (see `along`);
/// the step may carry past `to`.
pub fn offset_toward(from: Point, to: Point, step: u64) -> (o: Point)
    requires
        from.in_world(),
        to.in_world(),
        step <= STEP_LIMIT,
    ensures
        o == toward(from, to, step as int),
        o.x * o.x + o.y * o.y <= step * step,
        -(step as int) <= o.x <= step,
        -(step as int) <= o.y <= step,
        step * step <= dist_sq(from, to) ==> (to.x >= from.x ==> 0 <= o.x <= to.x - from.x) && (to.x
            < from.x ==> to.x - from.x <= o.x <= 0),
        step * step <= dist_sq(from, to) ==> (to.y >= from.y ==> 0 <= o.y <= to.y - from.y) && (to.y
            < from.y ==> to.y - from.y <= o.y <= 0),
{
    offset_along(to.x - from.x, to.y - from.y, step)
}

/// The move toward `to` at `speed` world units a second over `delta_ms`.
pub fn step_toward(from: Point, to: Point, speed: u64, delta_ms: u32) -> (o: Point)
    requires
        from.in_world(),
        to.in_world(),
        speed <= u32::MAX,
    ensures
        o == toward(from, to, travel(speed as int, delta_ms as int)),
{
    proof {
        assert(speed * delta_ms <= u32::MAX * u32::MAX) by (nonlinear_arith)
            requires
                speed <= u32::MAX,
                delta_ms <= u32::MAX,
        ;
    }
    let d = speed * (delta_ms as u64);
    let step = if d <= STEP_LIMIT {
        d
    } else {
        STEP_LIMIT
    };
    offset_toward(from, to, step)
}

} // verus!
