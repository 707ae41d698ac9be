//! The bee: its allergy meter, the pollen it carries, where it flies, its
//! sneezes and its wiggle.

use vstd::prelude::*;

use crate::config::{AllergyConfig, MovementConfig, SneezeConfig};
use crate::flower::{CacheSpawnPoint, FlowerHead, RIZZ_MAX};
use crate::geometry::{
    dist, dist_sq, distance, distance_sq, nearest_dist, nearest_distance, offset_toward, toward,
    Point, STEP_LIMIT,
};
use crate::timer::{GameTimer, TimerMode};

verus! {

/// How long a wiggle lasts, in milliseconds.
pub const WIGGLE_DURATION_MS: u64 = 500;

/// Time after a wiggle before the next one, in milliseconds.
pub const WIGGLE_COOLDOWN_MS: u64 = 2000;

/// Reach of a wiggle, in thousandths of a world unit.
pub const WIGGLE_RANGE: u64 = 150_000;

/// Rizz that a wiggle gives a head right at the bee, in thousandths.
pub const WIGGLE_RIZZ_BASE: u64 = 20_000;

/// How long a sneeze staggers the bee, in milliseconds.
pub const SNEEZE_DURATION_MS: u64 = 500;

/// Reach of the bee over loose pollen, in thousandths of a world unit.
pub const COLLECTION_RADIUS: u64 = 25_000;

/// Reach of the bee over a stem cache, in thousandths of a world unit.
pub const CACHE_COLLECTION_RADIUS: u64 = 30_000;

#[derive(Clone, Copy, Debug, PartialEq, Eq, Structural)]
pub enum Role {
    Gatherer,
    Diva,
    Healer,
}

impl Default for Role {
    fn default() -> (r: Role)
        ensures
            r == Role::Gatherer,
    {
        Role::Gatherer
    }
}

#[derive(Clone, Copy, Debug, PartialEq, Eq, Structural)]
pub struct Bee {
    pub role: Role,
}

impl Default for Bee {
    fn default() -> (b: Bee)
        ensures
            b.role == Role::Gatherer,
    {
        Bee { role: Role::Gatherer }
    }
}

/// The next value of a meter that rises near flower heads and falls away
/// from them: nearer than `threshold`, it gains `gain_rate` points a second
/// scaled by how near (all of it at distance zero), up to `max`; otherwise
/// it loses `decay_rate` points a second, down to zero.
pub open spec fn proximity_step(
    value: int,
    max: int,
    nearest: Option<nat>,
    gain_rate: int,
    threshold: int,
    decay_rate: int,
    delta: int,
) -> int {
    let decayed = if value >= decay_rate * delta {
        value - decay_rate * delta
    } else {
        0
    };
    match nearest {
        Some(d) => if d < threshold {
            let gain = gain_rate * delta * (threshold - d) / threshold;
            if value + gain < max {
                value + gain
            } else {
                max
            }
        } else {
            decayed
        },
        None => decayed,
    }
}

/// A meter that starts between zero and its maximum stays there after a
/// step, whatever the distance, rates and time: build-up stops at the
/// maximum and decay at zero.
pub proof fn lemma_proximity_step_in_range(
    value: int,
    max: int,
    nearest: Option<nat>,
    gain_rate: nat,
    threshold: nat,
    decay_rate: nat,
    delta: nat,
)
    requires
        0 <= value <= max,
    ensures
        0 <= proximity_step(
            value,
            max,
            nearest,
            gain_rate as int,
            threshold as int,
            decay_rate as int,
            delta as int,
        ) <= max,
{
    if nearest is Some && nearest->0 < threshold {
        let d = nearest->0;
        assert(gain_rate * delta * (threshold - d) >= 0) by (nonlinear_arith)
            requires
                d < threshold,
        ;
        vstd::arithmetic::div_mod::lemma_div_pos_is_pos(
            gain_rate * delta * (threshold - d),
            threshold as int,
        );
    }
}

/// `proximity_step` on machine integers.
pub fn proximity_step_exec(
    value: u32,
    max: u32,
    nearest: Option<u64>,
    gain_rate: u32,
    threshold: u64,
    decay_rate: u32,
    delta_ms: u32,
) -> (r: u32)
    ensures
        r == proximity_step(
            value as int,
            max as int,
            match nearest {
                Some(d) => Some(d as nat),
                None => None,
            },
            gain_rate as int,
            threshold as int,
            decay_rate as int,
            delta_ms as int,
        ),
{
    proof {
        assert(decay_rate * delta_ms <= u32::MAX * u32::MAX) by (nonlinear_arith)
            requires
                decay_rate <= u32::MAX,
                delta_ms <= u32::MAX,
        ;
        assert(gain_rate * delta_ms <= u32::MAX * u32::MAX) by (nonlinear_arith)
            requires
                gain_rate <= u32::MAX,
                delta_ms <= u32::MAX,
        ;
    }
    let loss = (decay_rate as u64) * (delta_ms as u64);
    let decayed = if (value as u64) >= loss {
        ((value as u64) - loss) as u32
    } else {
        0
    };
    match nearest {
        Some(d) => {
            if d < threshold {
                let rate = (gain_rate as u128) * (delta_ms as u128);
                let near = (threshold - d) as u128;
                proof {
                    let x = rate as int;
                    let t = threshold as int;
                    assert(x * near <= x * t) by (nonlinear_arith)
                        requires
                            0 <= x,
                            near <= t,
                    ;
                    assert(x * t <= 0xffff_ffff_ffff_ffff * 0xffff_ffff_ffff_ffff) by (nonlinear_arith)
                        requires
                            0 <= x <= 0xffff_ffff_ffff_ffff,
                            0 <= t <= 0xffff_ffff_ffff_ffff,
                    ;
                    vstd::arithmetic::div_mod::lemma_div_is_ordered(x * near, x * t, t);
                    vstd::arithmetic::div_mod::lemma_div_multiples_vanish(x, t);
                    assert(x * t == t * x) by (nonlinear_arith);
                    vstd::arithmetic::div_mod::lemma_div_pos_is_pos(x * near, t);
                }
                let gain = rate * near / (threshold as u128);
                let sum = (value as u128) + gain;
                if sum < max as u128 {
                    sum as u32
                } else {
                    max
                }
            } else {
                decayed
            }
        },
        None => decayed,
    }
}

/// How close a bee is to sneezing, in thousandths of a point.
#[derive(Clone, Copy, Debug, PartialEq, Eq, Structural)]
pub struct AllergyMeter {
    pub value: u32,
    pub max: u32,
}

impl AllergyMeter {
    pub fn new(max: u32) -> (m: AllergyMeter)
        ensures
            m.value == 0,
            m.max == max,
    {
        AllergyMeter { value: 0, max }
    }

    /// How full the meter is, in thousandths, rounded down.
    pub fn percentage(&self) -> (r: u64)
        requires
            self.max > 0,
        ensures
            r == self.value * 1000 / (self.max as int),
    {
        (self.value as u64) * 1000 / (self.max as u64)
    }

    pub fn should_sneeze(&self, threshold: u32) -> (r: bool)
        ensures
            r == (self.value >= threshold),
    {
        self.value >= threshold
    }
}

impl Default for AllergyMeter {
    fn default() -> (m: AllergyMeter)
        ensures
            m.value == 0,
            m.max == 100_000,
    {
        AllergyMeter::new(100_000)
    }
}

/// One step of `delta_ms` for a bee at `bee` among flower heads at
/// `heads`: its meter builds up near the nearest head and decays away from
/// all of them.
pub fn update_allergy_from_proximity(
    meter: &mut AllergyMeter,
    bee: Point,
    heads: &Vec<Point>,
    config: &AllergyConfig,
    delta_ms: u32,
)
    requires
        bee.in_world(),
        forall|i: int| 0 <= i < heads.len() ==> (#[trigger] heads[i]).in_world(),
    ensures
        final(meter).max == old(meter).max,
        final(meter).value == proximity_step(
            old(meter).value as int,
            old(meter).max as int,
            nearest_dist(bee, heads@),
            config.proximity_multiplier as int,
            config.proximity_threshold as int,
            config.base_decay_rate as int,
            delta_ms as int,
        ),
{
    let near = nearest_distance(bee, heads);
    meter.value =
    proximity_step_exec(
        meter.value,
        meter.max,
        near,
        config.proximity_multiplier,
        config.proximity_threshold,
        config.base_decay_rate,
        delta_ms,
    );
}

/// Pollen dropped from `count` by a sneeze of `percent` percent: the share
/// rounded up, at most `u32::MAX`.
pub open spec fn drop_amount(count: int, percent: int) -> int {
    let share = (count * percent + 99) / 100;
    if share <= u32::MAX {
        share
    } else {
        u32::MAX as int
    }
}

#[derive(Clone, Copy, Debug, Default, PartialEq, Eq, Structural)]
pub struct CollectedPollen {
    pub count: u32,
}

impl CollectedPollen {
    pub fn add(&mut self, amount: u32)
        requires
            old(self).count + amount <= u32::MAX,
        ensures
            final(self).count == old(self).count + amount,
    {
        self.count = self.count + amount;
    }

    /// Drops `percent` percent of the pollen, rounded up, and returns how
    /// much was dropped; the count does not go below zero.
    pub fn drop_percentage(&mut self, percent: u32) -> (dropped: u32)
        ensures
            dropped == drop_amount(old(self).count as int, percent as int),
            final(self).count == (if old(self).count >= dropped {
                old(self).count - dropped
            } else {
                0
            }),
    {
        proof {
            assert(self.count * percent <= u32::MAX * u32::MAX) by (nonlinear_arith)
                requires
                    self.count <= u32::MAX,
                    percent <= u32::MAX,
            ;
        }
        let share = ((self.count as u64) * (percent as u64) + 99) / 100;
        let dropped: u32 = if share <= u32::MAX as u64 {
            share as u32
        } else {
            u32::MAX
        };
        if self.count >= dropped {
            self.count = self.count - dropped;
        } else {
            self.count = 0;
        }
        dropped
    }
}

/// Where the bee was sent, if anywhere.
#[derive(Clone, Copy, Debug, Default, PartialEq, Eq, Structural)]
pub struct MoveTarget {
    pub destination: Option<Point>,
}

impl MoveTarget {
    pub fn set(&mut self, pos: Point)
        ensures
            final(self).destination == Some(pos),
    {
        self.destination = Some(pos);
    }

    pub fn clear(&mut self)
        ensures
            final(self).destination is None,
    {
        self.destination = None;
    }
}

/// Flies a bee at `pos` toward its target at `config.bee_speed` world
/// units per second for `delta_ms`: it lands on the target, and forgets
/// it, once the target lies within that step.
pub fn move_toward_target(
    pos: &mut Point,
    target: &mut MoveTarget,
    config: &MovementConfig,
    delta_ms: u32,
)
    requires
        old(pos).in_world(),
        old(target).destination matches Some(d) ==> d.in_world(),
    ensures
        final(pos).in_world(),
        old(target).destination is None ==> *final(pos) == *old(pos) && *final(target) == *old(
            target,
        ),
        old(target).destination matches Some(d) ==> {
            let step = config.bee_speed * delta_ms;
            let o = toward(*old(pos), d, step);
            &&& dist_sq(*old(pos), d) <= step * step ==> *final(pos) == d
                && final(target).destination is None
            &&& dist_sq(*old(pos), d) > step * step ==> *final(target) == *old(target)
                && final(pos).x == old(pos).x + o.x && final(pos).y == old(pos).y + o.y
        },
{
    match target.destination {
        None => {},
        Some(d) => {
            proof {
                assert(config.bee_speed * delta_ms <= u32::MAX * u32::MAX) by (nonlinear_arith)
                    requires
                        config.bee_speed <= u32::MAX,
                        delta_ms <= u32::MAX,
                ;
            }
            let step = (config.bee_speed as u64) * (delta_ms as u64);
            let d2 = distance_sq(*pos, d);
            let arrived = if step > STEP_LIMIT {
                proof {
                    assert(step * step > 8_000_000_000_000_000_000) by (nonlinear_arith)
                        requires
                            step > 0xffff_ffff,
                    ;
                    assert(d2 <= 8_000_000_000_000_000_000) by (nonlinear_arith)
                        requires
                            d2 == dist_sq(*pos, d),
                            pos.in_world(),
                            d.in_world(),
                    ;
                }
                true
            } else {
                proof {
                    assert(step * step <= 0xffff_ffff * 0xffff_ffff) by (nonlinear_arith)
                        requires
                            step <= 0xffff_ffff,
                    ;
                }
                d2 <= step * step
            };
            if arrived {
                *pos = d;
                target.clear();
            } else {
                let o = offset_toward(*pos, d, step);
                *pos = Point { x: pos.x + o.x, y: pos.y + o.y };
            }
        },
    }
}

/// A bee staggered by a sneeze.
#[derive(Clone, Copy, Debug, PartialEq, Eq, Structural)]
pub struct Sneezing {
    pub timer: GameTimer,
}

impl Default for Sneezing {
    fn default() -> (s: Sneezing)
        ensures
            s.timer.wf(),
            s.timer.is_fresh(SNEEZE_DURATION_MS, TimerMode::Once),
    {
        Sneezing { timer: GameTimer::new(SNEEZE_DURATION_MS, TimerMode::Once) }
    }
}

#[derive(Clone, Copy, Debug, Default, PartialEq, Eq, Structural)]
pub struct SneezeCount {
    pub count: u32,
}

/// Sneezes when the meter has reached the threshold: drops a share of the
/// carried pollen, sets the meter back and counts the sneeze. Returns how
/// much pollen fell, or `None` when there was no sneeze.
pub fn trigger_sneeze(
    meter: &mut AllergyMeter,
    collected: &mut CollectedPollen,
    sneezes: &mut SneezeCount,
    config: &SneezeConfig,
) -> (dropped: Option<u32>)
    requires
        old(meter).value >= config.threshold ==> old(sneezes).count < u32::MAX,
    ensures
        old(meter).value < config.threshold ==> dropped is None && *final(meter) == *old(meter)
            && *final(collected) == *old(collected) && *final(sneezes) == *old(sneezes),
        old(meter).value >= config.threshold ==> {
            let n = drop_amount(old(collected).count as int, config.drop_percent as int);
            &&& dropped == Some(n as u32)
            &&& final(collected).count == (if old(collected).count >= n {
                old(collected).count - n
            } else {
                0
            })
            &&& final(meter).value == config.post_sneeze_value
            &&& final(meter).max == old(meter).max
            &&& final(sneezes).count == old(sneezes).count + 1
        },
{
    if !meter.should_sneeze(config.threshold) {
        return None;
    }
    let n = collected.drop_percentage(config.drop_percent);
    meter.value = config.post_sneeze_value;
    sneezes.count = sneezes.count + 1;
    Some(n)
}

/// Advances a sneeze for `delta_ms`; the bee cannot keep a target while it
/// sneezes. Returns whether the sneeze is over.
pub fn update_sneezing(sneezing: &mut Sneezing, target: &mut MoveTarget, delta_ms: u32) -> (over:
    bool)
    requires
        old(sneezing).timer.wf(),
    ensures
        final(target).destination is None,
        old(sneezing).timer.tick_post(final(sneezing).timer, delta_ms as nat),
        over == final(sneezing).timer.finished,
{
    target.clear();
    sneezing.timer.tick(delta_ms);
    sneezing.timer.finished()
}

/// A bee in the middle of a wiggle, and where it stood when it began.
#[derive(Clone, Copy, Debug, PartialEq, Eq, Structural)]
pub struct Wiggling {
    pub timer: GameTimer,
    pub original_x: i64,
}

impl Wiggling {
    pub fn new(original_x: i64) -> (w: Wiggling)
        ensures
            w.timer.wf(),
            w.timer.is_fresh(WIGGLE_DURATION_MS, TimerMode::Once),
            w.original_x == original_x,
    {
        Wiggling { timer: GameTimer::new(WIGGLE_DURATION_MS, TimerMode::Once), original_x }
    }

    /// Advances the wiggle for `delta_ms`; returns whether it is over.
    pub fn advance(&mut self, delta_ms: u32) -> (over: bool)
        requires
            old(self).timer.wf(),
        ensures
            final(self).original_x == old(self).original_x,
            old(self).timer.tick_post(final(self).timer, delta_ms as nat),
            over == final(self).timer.finished,
    {
        self.timer.tick(delta_ms);
        self.timer.finished()
    }
}

/// The wait between two wiggles.
#[derive(Clone, Copy, Debug, PartialEq, Eq, Structural)]
pub struct WiggleCooldown {
    pub timer: GameTimer,
}

impl Default for WiggleCooldown {
    /// No wait at all: ready at once.
    fn default() -> (c: WiggleCooldown)
        ensures
            c.timer.wf(),
            c.timer.is_fresh(0, TimerMode::Once),
    {
        WiggleCooldown { timer: GameTimer::default() }
    }
}

impl WiggleCooldown {
    pub open spec fn ready(self) -> bool {
        self.timer.finished || self.timer.elapsed_ms == self.timer.duration_ms
    }

    pub fn start(&mut self)
        ensures
            final(self).timer.wf(),
            final(self).timer.is_fresh(WIGGLE_COOLDOWN_MS, TimerMode::Once),
    {
        self.timer = GameTimer::new(WIGGLE_COOLDOWN_MS, TimerMode::Once);
    }

    /// Ready once the wait is over, or when there is nothing left of it.
    pub fn is_ready(&self) -> (r: bool)
        requires
            self.timer.wf(),
        ensures
            r == self.ready(),
    {
        self.timer.finished() || self.timer.remaining_ms() == 0
    }
}

/// Whether a wiggle starts: the button was pressed and the bee is not
/// waiting for its cooldown.
pub fn handle_wiggle_input(pressed: bool, cooldown: Option<WiggleCooldown>) -> (r: bool)
    requires
        cooldown matches Some(c) ==> c.timer.wf(),
    ensures
        r == (pressed && (cooldown matches Some(c) ==> c.ready())),
{
    if !pressed {
        return false;
    }
    match cooldown {
        None => true,
        Some(c) => c.is_ready(),
    }
}

/// Rizz, in thousandths, that a finished wiggle gives a head at `d`
/// thousandths from the bee: all of `WIGGLE_RIZZ_BASE` right at the bee,
/// falling linearly to nothing at `WIGGLE_RANGE`.
pub open spec fn wiggle_gain(d: int) -> int {
    if d <= WIGGLE_RANGE {
        WIGGLE_RIZZ_BASE * (WIGGLE_RANGE - d) / (WIGGLE_RANGE as int)
    } else {
        0
    }
}

pub fn wiggle_rizz_gain(d: u64) -> (r: u32)
    ensures
        r == wiggle_gain(d as int),
{
    if d <= WIGGLE_RANGE {
        proof {
            assert(WIGGLE_RIZZ_BASE * (WIGGLE_RANGE - d) <= WIGGLE_RIZZ_BASE * WIGGLE_RANGE)
                by (nonlinear_arith)
                requires
                    d <= WIGGLE_RANGE,
            ;
        }
        ((WIGGLE_RIZZ_BASE * (WIGGLE_RANGE - d)) / WIGGLE_RANGE) as u32
    } else {
        0
    }
}

/// A head after a finished wiggle at `bee`, standing at `pos`.
pub open spec fn wiggled(bee: Point, pos: Point, h: FlowerHead) -> FlowerHead {
    if dist(bee, pos) <= WIGGLE_RANGE {
        let r = h.rizz + wiggle_gain(dist(bee, pos) as int);
        FlowerHead {
            rizz: if r <= RIZZ_MAX {
                r as u32
            } else {
                RIZZ_MAX
            },
            ..h
        }
    } else {
        h
    }
}

/// Gives rizz to every head within `WIGGLE_RANGE` of a bee that has just
/// finished a wiggle at `bee`. `positions[i]` is where `heads[i]` stands.
pub fn apply_wiggle(bee: Point, positions: &Vec<Point>, heads: &mut Vec<FlowerHead>)
    requires
        bee.in_world(),
        positions.len() == old(heads).len(),
        forall|i: int| 0 <= i < positions.len() ==> (#[trigger] positions[i]).in_world(),
    ensures
        final(heads).len() == old(heads).len(),
        forall|i: int|
            0 <= i < old(heads).len() ==> #[trigger] final(heads)[i] == wiggled(
                bee,
                positions[i],
                old(heads)[i],
            ),
{
    let mut i: usize = 0;
    while i < heads.len()
        invariant
            bee.in_world(),
            positions.len() == old(heads).len(),
            forall|j: int| 0 <= j < positions.len() ==> (#[trigger] positions[j]).in_world(),
            heads.len() == old(heads).len(),
            i <= heads.len(),
            forall|j: int| i <= j < heads.len() ==> heads[j] == #[trigger] old(heads)[j],
            forall|j: int|
                0 <= j < i ==> #[trigger] heads[j] == wiggled(bee, positions[j], old(heads)[j]),
        decreases heads.len() - i,
    {
        let d = distance(bee, positions[i]);
        if d <= WIGGLE_RANGE {
            let gain = wiggle_rizz_gain(d);
            heads[i].gain_rizz(gain);
        }
        i = i + 1;
    }
}

/// Advances a wiggle of a bee at `bee` for `delta_ms`; once it is over,
/// charms the heads around (see `apply_wiggle`). Returns whether it is
/// over. `positions[i]` is where `heads[i]` stands.
pub fn update_wiggling(
    wiggling: &mut Wiggling,
    bee: Point,
    positions: &Vec<Point>,
    heads: &mut Vec<FlowerHead>,
    delta_ms: u32,
) -> (over: bool)
    requires
        old(wiggling).timer.wf(),
        bee.in_world(),
        positions.len() == old(heads).len(),
        forall|i: int| 0 <= i < positions.len() ==> (#[trigger] positions[i]).in_world(),
    ensures
        final(wiggling).original_x == old(wiggling).original_x,
        old(wiggling).timer.tick_post(final(wiggling).timer, delta_ms as nat),
        over == final(wiggling).timer.finished,
        final(heads).len() == old(heads).len(),
        !over ==> final(heads)@ == old(heads)@,
        over ==> forall|i: int|
            0 <= i < old(heads).len() ==> #[trigger] final(heads)[i] == wiggled(
                bee,
                positions[i],
                old(heads)[i],
            ),
{
    let over = wiggling.advance(delta_ms);
    if over {
        apply_wiggle(bee, positions, heads);
    }
    over
}

/// Advances the wait between wiggles by `delta_ms`.
pub fn update_wiggle_cooldown(cooldown: &mut WiggleCooldown, delta_ms: u32)
    requires
        old(cooldown).timer.wf(),
    ensures
        old(cooldown).timer.tick_post(final(cooldown).timer, delta_ms as nat),
{
    cooldown.timer.tick(delta_ms);
}

/// The sum of `values`.
pub open spec fn total(values: Seq<u32>) -> int
    decreases values.len(),
{
    if values.len() == 0 {
        0
    } else {
        total(values.drop_last()) + values.last()
    }
}

/// The sum of those `values[i]` for which `taken[i]` holds.
pub open spec fn total_taken(values: Seq<u32>, taken: Seq<bool>) -> int
    decreases values.len(),
{
    if values.len() == 0 || taken.len() == 0 {
        0
    } else {
        total_taken(values.drop_last(), taken.drop_last()) + if taken.last() {
            values.last() as int
        } else {
            0
        }
    }
}

/// What each cache holds.
pub open spec fn cache_values(caches: Seq<CacheSpawnPoint>) -> Seq<u32> {
    caches.map_values(|c: CacheSpawnPoint| c.value)
}

proof fn lemma_total_prefix(values: Seq<u32>, i: int)
    requires
        0 <= i <= values.len(),
    ensures
        0 <= total(values.subrange(0, i)) <= total(values),
    decreases values.len(),
{
    if i == values.len() {
        assert(values.subrange(0, i) =~= values);
        lemma_total_nonneg(values);
    } else {
        lemma_total_prefix(values.drop_last(), i);
        assert(values.drop_last().subrange(0, i) =~= values.subrange(0, i));
    }
}

proof fn lemma_total_nonneg(values: Seq<u32>)
    ensures
        0 <= total(values),
    decreases values.len(),
{
    if values.len() > 0 {
        lemma_total_nonneg(values.drop_last());
    }
}

proof fn lemma_taken_le_total(values: Seq<u32>, taken: Seq<bool>)
    requires
        values.len() == taken.len(),
    ensures
        0 <= total_taken(values, taken) <= total(values),
    decreases values.len(),
{
    if values.len() > 0 {
        lemma_taken_le_total(values.drop_last(), taken.drop_last());
    }
}

/// One more value counted: the sums over `i + 1` items from those over `i`.
proof fn lemma_tally_step(values: Seq<u32>, taken: Seq<bool>, i: int, b: bool)
    requires
        0 <= i < values.len(),
        taken.len() == i,
    ensures
        total(values.subrange(0, i + 1)) == total(values.subrange(0, i)) + values[i],
        total_taken(values.subrange(0, i + 1), taken.push(b)) == total_taken(
            values.subrange(0, i),
            taken,
        ) + if b {
            values[i] as int
        } else {
            0
        },
{
    assert(values.subrange(0, i + 1).drop_last() =~= values.subrange(0, i));
    assert(taken.push(b).drop_last() =~= taken);
}

/// Picks up every loose pollen within `COLLECTION_RADIUS` of a bee at
/// `bee`, and tells which were taken. `pollen[i]` lies at `positions[i]`
/// and is worth `values[i]`.
pub fn collect_pollen(
    bee: Point,
    positions: &Vec<Point>,
    values: &Vec<u32>,
    collected: &mut CollectedPollen,
) -> (taken: Vec<bool>)
    requires
        bee.in_world(),
        positions.len() == values.len(),
        forall|i: int| 0 <= i < positions.len() ==> (#[trigger] positions[i]).in_world(),
        old(collected).count + total(values@) <= u32::MAX,
    ensures
        taken.len() == values.len(),
        forall|i: int|
            0 <= i < taken.len() ==> #[trigger] taken[i] == (dist(bee, positions[i])
                <= COLLECTION_RADIUS),
        final(collected).count == old(collected).count + total_taken(values@, taken@),
{
    let mut taken: Vec<bool> = Vec::new();
    let mut i: usize = 0;
    while i < values.len()
        invariant
            bee.in_world(),
            positions.len() == values.len(),
            forall|j: int| 0 <= j < positions.len() ==> (#[trigger] positions[j]).in_world(),
            old(collected).count + total(values@) <= u32::MAX,
            i <= values.len(),
            taken.len() == i,
            forall|j: int|
                0 <= j < i ==> #[trigger] taken[j] == (dist(bee, positions[j])
                    <= COLLECTION_RADIUS),
            collected.count == old(collected).count + total_taken(
                values@.subrange(0, i as int),
                taken@,
            ),
        decreases values.len() - i,
    {
        let near = distance(bee, positions[i]) <= COLLECTION_RADIUS;
        proof {
            lemma_tally_step(values@, taken@, i as int, near);
            lemma_taken_le_total(values@.subrange(0, i as int), taken@);
            lemma_total_prefix(values@, i as int + 1);
        }
        if near {
            collected.add(values[i]);
        }
        taken.push(near);
        i = i + 1;
    }
    assert(values@.subrange(0, values.len() as int) =~= values@);
    taken
}

/// Empties every active cache within `CACHE_COLLECTION_RADIUS` of a bee at
/// `bee` into what it carries, starting the cache's respawn timer over,
/// and tells which were emptied. `caches[i]` stands at `positions[i]`.
pub fn collect_caches(
    bee: Point,
    positions: &Vec<Point>,
    caches: &mut Vec<CacheSpawnPoint>,
    collected: &mut CollectedPollen,
) -> (taken: Vec<bool>)
    requires
        bee.in_world(),
        positions.len() == old(caches).len(),
        forall|i: int| 0 <= i < positions.len() ==> (#[trigger] positions[i]).in_world(),
        forall|i: int| 0 <= i < old(caches).len() ==> (#[trigger] old(caches)[i]).wf(),
        old(collected).count + total(cache_values(old(caches)@)) <= u32::MAX,
    ensures
        taken.len() == old(caches).len(),
        final(caches).len() == old(caches).len(),
        forall|i: int|
            0 <= i < taken.len() ==> #[trigger] taken[i] == (old(caches)[i].is_active && dist(
                bee,
                positions[i],
            ) <= CACHE_COLLECTION_RADIUS),
        forall|i: int|
            0 <= i < taken.len() ==> {
                &&& taken[i] ==> {
                    &&& !(#[trigger] final(caches)[i]).is_active
                    &&& final(caches)[i].value == old(caches)[i].value
                    &&& final(caches)[i].respawn_timer.wf()
                    &&& final(caches)[i].respawn_timer.is_fresh(
                        old(caches)[i].respawn_timer.duration_ms,
                        old(caches)[i].respawn_timer.mode,
                    )
                }
                &&& !taken[i] ==> final(caches)[i] == old(caches)[i]
            },
        final(collected).count == old(collected).count + total_taken(
            cache_values(old(caches)@),
            taken@,
        ),
{
    let ghost values = cache_values(caches@);
    let mut taken: Vec<bool> = Vec::new();
    let mut i: usize = 0;
    while i < caches.len()
        invariant
            bee.in_world(),
            positions.len() == old(caches).len(),
            caches.len() == old(caches).len(),
            values == cache_values(old(caches)@),
            forall|j: int| 0 <= j < positions.len() ==> (#[trigger] positions[j]).in_world(),
            forall|j: int| 0 <= j < old(caches).len() ==> (#[trigger] old(caches)[j]).wf(),
            old(collected).count + total(values) <= u32::MAX,
            i <= caches.len(),
            taken.len() == i,
            forall|j: int| i <= j < caches.len() ==> caches[j] == #[trigger] old(caches)[j],
            forall|j: int|
                0 <= j < i ==> #[trigger] taken[j] == (old(caches)[j].is_active && dist(
                    bee,
                    positions[j],
                ) <= CACHE_COLLECTION_RADIUS),
            forall|j: int|
                0 <= j < i ==> {
                    &&& taken[j] ==> {
                        &&& !(#[trigger] caches[j]).is_active
                        &&& caches[j].value == old(caches)[j].value
                        &&& caches[j].respawn_timer.wf()
                        &&& caches[j].respawn_timer.is_fresh(
                            old(caches)[j].respawn_timer.duration_ms,
                            old(caches)[j].respawn_timer.mode,
                        )
                    }
                    &&& !taken[j] ==> caches[j] == old(caches)[j]
                },
            collected.count == old(collected).count + total_taken(
                values.subrange(0, i as int),
                taken@,
            ),
        decreases caches.len() - i,
    {
        let hit = caches[i].is_active && distance(bee, positions[i]) <= CACHE_COLLECTION_RADIUS;
        proof {
            lemma_tally_step(values, taken@, i as int, hit);
            lemma_taken_le_total(values.subrange(0, i as int), taken@);
            lemma_total_prefix(values, i as int + 1);
        }
        if hit {
            collected.add(caches[i].value);
            caches[i].is_active = false;
            caches[i].respawn_timer.reset();
        }
        taken.push(hit);
        i = i + 1;
    }
    assert(values.subrange(0, caches.len() as int) =~= values);
    taken
}

} // verus!
