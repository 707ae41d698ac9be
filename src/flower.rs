//! Flower heads: their charm ("rizz"), the behavior it selects, their
//! movement along a pattern, and the pollen they drop.

use vstd::prelude::*;

use crate::geometry::{is_nearest, nearest, step_toward, toward, travel, Point};
use crate::timer::{GameTimer, TimerMode};

verus! {

/// Largest rizz, in thousandths of a point.
pub const RIZZ_MAX: u32 = 100_000;

/// Rizz lost per second, in points.
pub const RIZZ_DECAY_RATE: u32 = 5;

/// Under this rizz a head chases the nearest bee.
pub const LOW_RIZZ_THRESHOLD: u32 = 30_000;

/// Over this rizz a head drifts lazily.
pub const HIGH_RIZZ_THRESHOLD: u32 = 70_000;

/// World units per second of a head chasing a bee.
pub const PURSUIT_SPEED: u64 = 80;

/// Rizz lost by the head nearest to a collected cache.
pub const TICKLE_RIZZ_DROP: u32 = 30_000;

/// How long a tickled head turns toward the cache, in milliseconds.
pub const ATTENTION_SNAP_MS: u64 = 1000;

/// World units per second of a tickled head.
pub const ATTENTION_SNAP_SPEED: u64 = 150;

/// A full turn, in millionths of a radian.
pub const FULL_TURN: u64 = 6_283_185;

/// Angular speed of a blissed head, in thousandths of a radian per second.
pub const BLISS_SPEED: u32 = 300;

/// Radius of a blissed head's circle, in thousandths of a world unit.
pub const BLISS_RADIUS: i64 = 20_000;

/// Height of a head's resting point above its stem, in thousandths.
pub const BASE_HEIGHT: i64 = 120_000;

/// No head drops pollen while this much lies on the field.
pub const MAX_POLLEN_COUNT: usize = 100;

/// Time between two pollen drops of a head, in milliseconds.
pub const POLLEN_DROP_MS: u64 = 2000;

/// Time a collected cache stays empty, in milliseconds.
pub const CACHE_RESPAWN_MS: u64 = 10_000;

/// A flower: the stem that carries heads and caches.
#[derive(Clone, Copy, Debug, Default, PartialEq, Eq, Structural)]
pub struct Flower;

/// The path a head follows around its resting point.
///
/// Lengths are thousandths of a world unit, speeds thousandths of a radian
/// per second, and the phase (`angle`, `t`, `offset`) millionths of a
/// radian, so that a speed times milliseconds is a change of phase.
#[derive(Clone, Copy, Debug, PartialEq, Eq, Structural)]
pub enum MovementPattern {
    Circular { radius: i64, speed: u32, angle: u64 },
    Figure8 { width: i64, height: i64, speed: u32, t: u64 },
    Sway { amplitude: i64, speed: u32, offset: u64 },
}

/// A phase moved on by `step`, brought back by one full turn once past it.
pub open spec fn advanced(phase: int, step: int) -> int {
    if phase + step > FULL_TURN {
        phase + step - FULL_TURN
    } else {
        phase + step
    }
}

impl MovementPattern {
    pub open spec fn phase(self) -> u64 {
        match self {
            MovementPattern::Circular { angle, .. } => angle,
            MovementPattern::Figure8 { t, .. } => t,
            MovementPattern::Sway { offset, .. } => offset,
        }
    }

    pub open spec fn speed(self) -> u32 {
        match self {
            MovementPattern::Circular { speed, .. } => speed,
            MovementPattern::Figure8 { speed, .. } => speed,
            MovementPattern::Sway { speed, .. } => speed,
        }
    }

    /// The same pattern at phase `p`.
    pub open spec fn with_phase(self, p: u64) -> MovementPattern {
        match self {
            MovementPattern::Circular { radius, speed, .. } => MovementPattern::Circular {
                radius,
                speed,
                angle: p,
            },
            MovementPattern::Figure8 { width, height, speed, .. } => MovementPattern::Figure8 {
                width,
                height,
                speed,
                t: p,
            },
            MovementPattern::Sway { amplitude, speed, .. } => MovementPattern::Sway {
                amplitude,
                speed,
                offset: p,
            },
        }
    }

    pub fn circular(radius: i64, speed: u32) -> (m: MovementPattern)
        ensures
            m == (MovementPattern::Circular { radius, speed, angle: 0 }),
    {
        MovementPattern::Circular { radius, speed, angle: 0 }
    }

    pub fn figure8(width: i64, height: i64, speed: u32) -> (m: MovementPattern)
        ensures
            m == (MovementPattern::Figure8 { width, height, speed, t: 0 }),
    {
        MovementPattern::Figure8 { width, height, speed, t: 0 }
    }

    pub fn sway(amplitude: i64, speed: u32) -> (m: MovementPattern)
        ensures
            m == (MovementPattern::Sway { amplitude, speed, offset: 0 }),
    {
        MovementPattern::Sway { amplitude, speed, offset: 0 }
    }

    pub fn phase_of(&self) -> (p: u64)
        ensures
            p == self.phase(),
    {
        match self {
            MovementPattern::Circular { angle, .. } => *angle,
            MovementPattern::Figure8 { t, .. } => *t,
            MovementPattern::Sway { offset, .. } => *offset,
        }
    }

    fn set_phase(&mut self, p: u64)
        ensures
            *final(self) == old(self).with_phase(p),
    {
        match self {
            MovementPattern::Circular { angle, .. } => {
                *angle = p;
            },
            MovementPattern::Figure8 { t, .. } => {
                *t = p;
            },
            MovementPattern::Sway { offset, .. } => {
                *offset = p;
            },
        }
    }

    /// Moves the phase on by the pattern's own speed over `delta_ms`, and
    /// returns the new phase.
    pub fn advance(&mut self, delta_ms: u32) -> (p: u64)
        requires
            old(self).phase() + old(self).speed() * delta_ms <= u64::MAX,
        ensures
            p == advanced(old(self).phase() as int, old(self).speed() * delta_ms),
            *final(self) == old(self).with_phase(p),
    {
        let speed = match self {
            MovementPattern::Circular { speed, .. } => *speed,
            MovementPattern::Figure8 { speed, .. } => *speed,
            MovementPattern::Sway { speed, .. } => *speed,
        };
        self.advance_by(speed, delta_ms)
    }

    /// Moves the phase on at the slow speed of a blissed head, and returns
    /// the new phase.
    pub fn advance_blissed(&mut self, delta_ms: u32) -> (p: u64)
        requires
            old(self).phase() + BLISS_SPEED * delta_ms <= u64::MAX,
        ensures
            p == advanced(old(self).phase() as int, BLISS_SPEED * delta_ms),
            *final(self) == old(self).with_phase(p),
    {
        self.advance_by(BLISS_SPEED, delta_ms)
    }

    fn advance_by(&mut self, speed: u32, delta_ms: u32) -> (p: u64)
        requires
            old(self).phase() + speed * delta_ms <= u64::MAX,
        ensures
            p == advanced(old(self).phase() as int, speed * delta_ms),
            *final(self) == old(self).with_phase(p),
    {
        proof {
            assert(speed * delta_ms <= u32::MAX * u32::MAX) by (nonlinear_arith)
                requires
                    speed <= u32::MAX,
                    delta_ms <= u32::MAX,
            ;
        }
        let step = (speed as u64) * (delta_ms as u64);
        let mut p = self.phase_of() + step;
        if p > FULL_TURN {
            p = p - FULL_TURN;
        }
        self.set_phase(p);
        p
    }
}

impl Default for MovementPattern {
    fn default() -> (m: MovementPattern)
        ensures
            m == (MovementPattern::Circular { radius: 50_000, speed: 1000, angle: 0 }),
    {
        MovementPattern::circular(50_000, 1000)
    }
}

/// How a head moves, chosen by its rizz.
#[derive(Clone, Copy, Debug, PartialEq, Eq, Structural)]
pub enum RizzBehavior {
    /// Follows its movement pattern.
    Normal,
    /// Low rizz: chases the nearest bee.
    Pursuing,
    /// High rizz: drifts on a slow, predictable circle.
    Blissed,
}

impl Default for RizzBehavior {
    fn default() -> (b: RizzBehavior)
        ensures
            b == RizzBehavior::Normal,
    {
        RizzBehavior::Normal
    }
}

pub open spec fn rizz_behavior(rizz: int) -> RizzBehavior {
    if rizz < LOW_RIZZ_THRESHOLD {
        RizzBehavior::Pursuing
    } else if rizz > HIGH_RIZZ_THRESHOLD {
        RizzBehavior::Blissed
    } else {
        RizzBehavior::Normal
    }
}

/// The behavior that a rizz of `rizz` thousandths selects.
pub fn behavior_for_rizz(rizz: u32) -> (b: RizzBehavior)
    ensures
        b == rizz_behavior(rizz as int),
{
    if rizz < LOW_RIZZ_THRESHOLD {
        RizzBehavior::Pursuing
    } else if rizz > HIGH_RIZZ_THRESHOLD {
        RizzBehavior::Blissed
    } else {
        RizzBehavior::Normal
    }
}

/// The behavior to give a head whose rizz is `rizz`, or `None` when it
/// already has that one.
pub fn update_rizz_behavior(current: Option<RizzBehavior>, rizz: u32) -> (r: Option<RizzBehavior>)
    ensures
        current == Some(rizz_behavior(rizz as int)) ==> r is None,
        current != Some(rizz_behavior(rizz as int)) ==> r == Some(rizz_behavior(rizz as int)),
{
    let b = behavior_for_rizz(rizz);
    match current {
        Some(c) => {
            if c == b {
                None
            } else {
                Some(b)
            }
        },
        None => Some(b),
    }
}

/// How a head is placed this frame.
#[derive(Clone, Copy, Debug, PartialEq, Eq, Structural)]
pub enum HeadPath {
    /// Moved by the chase; its pattern runs on underneath, unseen.
    Chasing,
    /// On its movement pattern, at the pattern's new phase.
    Pattern,
    /// On the slow bliss circle, at the pattern's new phase.
    Blissed,
}

/// Advances a head's pattern for `delta_ms` by its behavior: a blissed
/// head at the slow bliss speed, any other at the pattern's own speed.
pub fn update_flower_head_movement(
    pattern: &mut MovementPattern,
    behavior: Option<RizzBehavior>,
    delta_ms: u32,
) -> (path: HeadPath)
    requires
        old(pattern).phase() + old(pattern).speed() * delta_ms <= u64::MAX,
        old(pattern).phase() + BLISS_SPEED * delta_ms <= u64::MAX,
    ensures
        behavior == Some(RizzBehavior::Blissed) ==> path == HeadPath::Blissed && *final(pattern)
            == old(pattern).with_phase(
            advanced(old(pattern).phase() as int, BLISS_SPEED * delta_ms) as u64,
        ),
        behavior != Some(RizzBehavior::Blissed) ==> *final(pattern) == old(pattern).with_phase(
            advanced(old(pattern).phase() as int, old(pattern).speed() * delta_ms) as u64,
        ),
        behavior == Some(RizzBehavior::Pursuing) ==> path == HeadPath::Chasing,
        behavior != Some(RizzBehavior::Pursuing) && behavior != Some(RizzBehavior::Blissed)
            ==> path == HeadPath::Pattern,
{
    match behavior {
        Some(RizzBehavior::Pursuing) => {
            pattern.advance(delta_ms);
            HeadPath::Chasing
        },
        Some(RizzBehavior::Blissed) => {
            pattern.advance_blissed(delta_ms);
            HeadPath::Blissed
        },
        _ => {
            pattern.advance(delta_ms);
            HeadPath::Pattern
        },
    }
}

/// A head of a flower.
#[derive(Clone, Copy, Debug, PartialEq, Eq, Structural)]
pub struct FlowerHead {
    pub movement_pattern: MovementPattern,
    pub pollen_drop_timer: GameTimer,
    /// In thousandths of a point.
    pub rizz: u32,
}

impl FlowerHead {
    pub open spec fn wf(self) -> bool {
        self.pollen_drop_timer.wf()
    }

    /// Rizz fades by `RIZZ_DECAY_RATE` points a second, down to zero.
    pub fn decay_rizz(&mut self, delta_ms: u32)
        ensures
            final(self).rizz == (if old(self).rizz >= RIZZ_DECAY_RATE * delta_ms {
                old(self).rizz - RIZZ_DECAY_RATE * delta_ms
            } else {
                0
            }),
            final(self).movement_pattern == old(self).movement_pattern,
            final(self).pollen_drop_timer == old(self).pollen_drop_timer,
    {
        let loss = (RIZZ_DECAY_RATE as u64) * (delta_ms as u64);
        if (self.rizz as u64) >= loss {
            self.rizz = ((self.rizz as u64) - loss) as u32;
        } else {
            self.rizz = 0;
        }
    }

    /// Adds `amount` thousandths of rizz, up to `RIZZ_MAX`.
    pub fn gain_rizz(&mut self, amount: u32)
        ensures
            final(self).rizz == (if old(self).rizz + amount <= RIZZ_MAX {
                old(self).rizz + amount
            } else {
                RIZZ_MAX as int
            }),
            final(self).movement_pattern == old(self).movement_pattern,
            final(self).pollen_drop_timer == old(self).pollen_drop_timer,
    {
        let sum = (self.rizz as u64) + (amount as u64);
        if sum <= RIZZ_MAX as u64 {
            self.rizz = sum as u32;
        } else {
            self.rizz = RIZZ_MAX;
        }
    }

    /// A tickle costs `TICKLE_RIZZ_DROP` thousandths, down to zero.
    pub fn tickle(&mut self)
        ensures
            final(self).rizz == (if old(self).rizz >= TICKLE_RIZZ_DROP {
                old(self).rizz - TICKLE_RIZZ_DROP
            } else {
                0
            }),
            final(self).movement_pattern == old(self).movement_pattern,
            final(self).pollen_drop_timer == old(self).pollen_drop_timer,
    {
        if self.rizz >= TICKLE_RIZZ_DROP {
            self.rizz = self.rizz - TICKLE_RIZZ_DROP;
        } else {
            self.rizz = 0;
        }
    }
}

impl Default for FlowerHead {
    fn default() -> (h: FlowerHead)
        ensures
            h.wf(),
            h.movement_pattern == (MovementPattern::Circular {
                radius: 50_000,
                speed: 1000,
                angle: 0,
            }),
            h.pollen_drop_timer.is_fresh(POLLEN_DROP_MS, TimerMode::Repeating),
            h.rizz == 0,
    {
        FlowerHead {
            movement_pattern: MovementPattern::default(),
            pollen_drop_timer: GameTimer::new(POLLEN_DROP_MS, TimerMode::Repeating),
            rizz: 0,
        }
    }
}

/// Rizz of every head fades for `delta_ms` (see `FlowerHead::decay_rizz`).
pub fn decay_rizz(heads: &mut Vec<FlowerHead>, delta_ms: u32)
    ensures
        final(heads).len() == old(heads).len(),
        forall|i: int|
            0 <= i < old(heads).len() ==> {
                &&& (#[trigger] final(heads)[i]).rizz == (if old(heads)[i].rizz >= RIZZ_DECAY_RATE
                    * delta_ms {
                    old(heads)[i].rizz - RIZZ_DECAY_RATE * delta_ms
                } else {
                    0
                })
                &&& final(heads)[i].movement_pattern == old(heads)[i].movement_pattern
                &&& final(heads)[i].pollen_drop_timer == old(heads)[i].pollen_drop_timer
            },
{
    let mut i: usize = 0;
    while i < heads.len()
        invariant
            heads.len() == old(heads).len(),
            i <= heads.len(),
            forall|j: int| i <= j < heads.len() ==> heads[j] == #[trigger] old(heads)[j],
            forall|j: int|
                0 <= j < i ==> {
                    &&& (#[trigger] heads[j]).rizz == (if old(heads)[j].rizz >= RIZZ_DECAY_RATE
                        * delta_ms {
                        old(heads)[j].rizz - RIZZ_DECAY_RATE * delta_ms
                    } else {
                        0
                    })
                    &&& heads[j].movement_pattern == old(heads)[j].movement_pattern
                    &&& heads[j].pollen_drop_timer == old(heads)[j].pollen_drop_timer
                },
        decreases heads.len() - i,
    {
        heads[i].decay_rizz(delta_ms);
        i = i + 1;
    }
}

/// Drops rizz on the head nearest to a collected cache at `cache`, the
/// first of those equally near, and returns its index; `None` when there
/// are no heads. `positions[i]` is where `heads[i]` stands.
pub fn handle_tickle_event(cache: Point, positions: &Vec<Point>, heads: &mut Vec<FlowerHead>) -> (r:
    Option<usize>)
    requires
        cache.in_world(),
        positions.len() == old(heads).len(),
        forall|i: int| 0 <= i < positions.len() ==> (#[trigger] positions[i]).in_world(),
    ensures
        r is None <==> old(heads).len() == 0,
        r is None ==> final(heads)@ == old(heads)@,
        r matches Some(k) ==> {
            &&& is_nearest(cache, positions@, k as int)
            &&& final(heads)@ == old(heads)@.update(
                k as int,
                FlowerHead {
                    rizz: if old(heads)[k as int].rizz >= TICKLE_RIZZ_DROP {
                        (old(heads)[k as int].rizz - TICKLE_RIZZ_DROP) as u32
                    } else {
                        0
                    },
                    ..old(heads)[k as int]
                },
            )
        },
{
    let k = nearest(cache, positions);
    match k {
        None => None,
        Some(k) => {
            heads[k].tickle();
            Some(k)
        },
    }
}

/// A tickled head turning toward the cache that was collected.
#[derive(Clone, Copy, Debug, PartialEq, Eq, Structural)]
pub struct AttentionSnap {
    pub target: Point,
    pub timer: GameTimer,
}

impl AttentionSnap {
    pub fn new(target: Point) -> (s: AttentionSnap)
        ensures
            s.target == target,
            s.timer.wf(),
            s.timer.is_fresh(ATTENTION_SNAP_MS, TimerMode::Once),
    {
        AttentionSnap { target, timer: GameTimer::new(ATTENTION_SNAP_MS, TimerMode::Once) }
    }
}

/// Advances a snap for `delta_ms`; while it lasts, returns the move of a
/// head at `head` toward the target, and `None` once it is over.
pub fn update_attention_snap(snap: &mut AttentionSnap, head: Point, delta_ms: u32) -> (r: Option<
    Point,
>)
    requires
        old(snap).timer.wf(),
        old(snap).target.in_world(),
        head.in_world(),
    ensures
        final(snap).target == old(snap).target,
        old(snap).timer.tick_post(final(snap).timer, delta_ms as nat),
        final(snap).timer.finished ==> r is None,
        !final(snap).timer.finished ==> r == Some(
            toward(head, old(snap).target, travel(ATTENTION_SNAP_SPEED as int, delta_ms as int)),
        ),
{
    snap.timer.tick(delta_ms);
    if snap.timer.finished() {
        None
    } else {
        Some(step_toward(head, snap.target, ATTENTION_SNAP_SPEED, delta_ms))
    }
}

/// The move of a chasing head at `head` toward the nearest of `bees` (the
/// first of those equally near); no move when it does not chase or there
/// is no bee.
pub fn pursue_bee(behavior: RizzBehavior, head: Point, bees: &Vec<Point>, delta_ms: u32) -> (o:
    Point)
    requires
        head.in_world(),
        forall|i: int| 0 <= i < bees.len() ==> (#[trigger] bees[i]).in_world(),
    ensures
        behavior != RizzBehavior::Pursuing || bees.len() == 0 ==> o == (Point { x: 0, y: 0 }),
        behavior == RizzBehavior::Pursuing && bees.len() > 0 ==> (exists|k: int|
            is_nearest(head, bees@, k) && o == toward(head, bees[k], travel(PURSUIT_SPEED as int, delta_ms as int))),
{
    if behavior != RizzBehavior::Pursuing {
        return Point { x: 0, y: 0 };
    }
    match nearest(head, bees) {
        None => Point { x: 0, y: 0 },
        Some(k) => step_toward(head, bees[k], PURSUIT_SPEED, delta_ms),
    }
}

/// Advances the pollen timer of every head and tells which of them drop a
/// pollen now; while `pollen_count` has reached `MAX_POLLEN_COUNT` the
/// timers stand still and none drops.
pub fn spawn_pollen_from_heads(pollen_count: usize, heads: &mut Vec<FlowerHead>, delta_ms: u32) -> (drops:
    Vec<bool>)
    requires
        forall|i: int| 0 <= i < old(heads).len() ==> (#[trigger] old(heads)[i]).wf(),
    ensures
        drops.len() == old(heads).len(),
        final(heads).len() == old(heads).len(),
        pollen_count >= MAX_POLLEN_COUNT ==> final(heads)@ == old(heads)@ && forall|i: int|
            0 <= i < drops.len() ==> !(#[trigger] drops[i]),
        pollen_count < MAX_POLLEN_COUNT ==> forall|i: int|
            0 <= i < old(heads).len() ==> {
                &&& old(heads)[i].pollen_drop_timer.tick_post(
                    #[trigger] final(heads)[i].pollen_drop_timer,
                    delta_ms as nat,
                )
                &&& final(heads)[i].rizz == old(heads)[i].rizz
                &&& final(heads)[i].movement_pattern == old(heads)[i].movement_pattern
                &&& drops[i] == (final(heads)[i].pollen_drop_timer.times_finished_this_tick > 0)
            },
{
    let mut drops: Vec<bool> = Vec::new();
    if pollen_count >= MAX_POLLEN_COUNT {
        let mut i: usize = 0;
        while i < heads.len()
            invariant
                i <= heads.len(),
                drops.len() == i,
                forall|j: int| 0 <= j < i ==> !(#[trigger] drops[j]),
            decreases heads.len() - i,
        {
            drops.push(false);
            i = i + 1;
        }
        return drops;
    }
    let mut i: usize = 0;
    while i < heads.len()
        invariant
            i <= heads.len(),
            heads.len() == old(heads).len(),
            drops.len() == i,
            forall|j: int| i <= j < heads.len() ==> heads[j] == #[trigger] old(heads)[j],
            forall|j: int| 0 <= j < old(heads).len() ==> (#[trigger] old(heads)[j]).wf(),
            forall|j: int|
                0 <= j < i ==> {
                    &&& old(heads)[j].pollen_drop_timer.tick_post(
                        #[trigger] heads[j].pollen_drop_timer,
                        delta_ms as nat,
                    )
                    &&& heads[j].rizz == old(heads)[j].rizz
                    &&& heads[j].movement_pattern == old(heads)[j].movement_pattern
                    &&& drops[j] == (heads[j].pollen_drop_timer.times_finished_this_tick > 0)
                },
        decreases heads.len() - i,
    {
        heads[i].pollen_drop_timer.tick(delta_ms);
        let d = heads[i].pollen_drop_timer.just_finished();
        drops.push(d);
        i = i + 1;
    }
    drops
}

/// One grain of pollen on the field.
#[derive(Clone, Copy, Debug, PartialEq, Eq, Structural)]
pub struct Pollen {
    pub value: u32,
}

impl Default for Pollen {
    fn default() -> (p: Pollen)
        ensures
            p.value == 1,
    {
        Pollen { value: 1 }
    }
}

#[derive(Clone, Copy, Debug, PartialEq, Eq, Structural)]
pub struct PollenCache {
    pub value: u32,
}

impl Default for PollenCache {
    fn default() -> (p: PollenCache)
        ensures
            p.value == 5,
    {
        PollenCache { value: 5 }
    }
}

/// A store of pollen on a stem; collecting it empties it for a while.
#[derive(Clone, Copy, Debug, PartialEq, Eq, Structural)]
pub struct CacheSpawnPoint {
    pub respawn_timer: GameTimer,
    pub is_active: bool,
    pub value: u32,
}

impl CacheSpawnPoint {
    pub open spec fn wf(self) -> bool {
        self.respawn_timer.wf()
    }
}

impl Default for CacheSpawnPoint {
    fn default() -> (c: CacheSpawnPoint)
        ensures
            c.wf(),
            c.respawn_timer.is_fresh(CACHE_RESPAWN_MS, TimerMode::Once),
            c.is_active,
            c.value == 5,
    {
        CacheSpawnPoint {
            respawn_timer: GameTimer::new(CACHE_RESPAWN_MS, TimerMode::Once),
            is_active: true,
            value: 5,
        }
    }
}

} // verus!
