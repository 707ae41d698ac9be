use allerbees::flower::{
    behavior_for_rizz, handle_tickle_event, pursue_bee, spawn_pollen_from_heads,
    update_attention_snap, update_flower_head_movement, update_rizz_behavior, decay_rizz, AttentionSnap, CacheSpawnPoint, FlowerHead,
    HeadPath, MovementPattern, Pollen, PollenCache, RizzBehavior, FULL_TURN,
};
use allerbees::geometry::Point;

/// Where a pattern puts a head at its current phase, in world units.
fn pattern_position(pattern: &MovementPattern) -> (f64, f64) {
    let base = 120.0;
    match *pattern {
        MovementPattern::Circular { radius, angle, .. } => {
            let a = angle as f64 / 1e6;
            (a.cos() * radius as f64 / 1000.0, a.sin() * radius as f64 / 1000.0 + base)
        }
        MovementPattern::Figure8 { width, height, t, .. } => {
            let a = t as f64 / 1e6;
            (a.sin() * width as f64 / 1000.0, (2.0 * a).sin() * height as f64 / 1000.0 + base)
        }
        MovementPattern::Sway { amplitude, offset, .. } => {
            let a = offset as f64 / 1e6;
            (a.sin() * amplitude as f64 / 1000.0, base)
        }
    }
}

#[test]
fn circular_pattern_produces_expected_range() {
    let mut pattern = MovementPattern::Circular { radius: 50_000, speed: 1000, angle: 0 };

    // At angle 0, should be at (radius, base_height)
    pattern.advance(0);
    let offset = pattern_position(&pattern);
    assert!((offset.0 - 50.0).abs() < 0.01);
    assert!((offset.1 - 120.0).abs() < 0.01);
}

#[test]
fn sway_pattern_oscillates_horizontally() {
    let mut pattern = MovementPattern::Sway { amplitude: 30_000, speed: 1000, offset: 0 };

    pattern.advance(0);
    let offset1 = pattern_position(&pattern);
    assert!((offset1.0).abs() < 0.01); // sin(0) = 0

    // Move forward in time (a quarter turn at one radian a second) to get positive x
    pattern.advance(1571);
    let offset2 = pattern_position(&pattern);
    assert!(offset2.0 > 0.0); // sin(pi/2) = 1
}

#[test]
fn rizz_behavior_default_is_normal() {
    assert_eq!(RizzBehavior::default(), RizzBehavior::Normal);
}

#[test]
fn phase_wraps_after_full_turn() {
    let mut pattern = MovementPattern::circular(40_000, 1000);
    let p = pattern.advance(6_000);
    assert_eq!(p, 6_000_000);
    let q = pattern.advance(1_000);
    assert_eq!(q, 7_000_000 - FULL_TURN);
    assert_eq!(pattern, MovementPattern::Circular { radius: 40_000, speed: 1000, angle: 716_815 });
}

#[test]
fn blissed_head_moves_slowly() {
    let mut pattern = MovementPattern::figure8(35_000, 25_000, 800);
    let path = update_flower_head_movement(&mut pattern, Some(RizzBehavior::Blissed), 100);
    assert_eq!(path, HeadPath::Blissed);
    assert_eq!(pattern, MovementPattern::Figure8 { width: 35_000, height: 25_000, speed: 800, t: 30_000 });

    let path = update_flower_head_movement(&mut pattern, Some(RizzBehavior::Pursuing), 100);
    assert_eq!(path, HeadPath::Chasing);
    let path = update_flower_head_movement(&mut pattern, None, 100);
    assert_eq!(path, HeadPath::Pattern);
    assert_eq!(pattern, MovementPattern::Figure8 { width: 35_000, height: 25_000, speed: 800, t: 190_000 });
}

#[test]
fn behavior_thresholds() {
    assert_eq!(behavior_for_rizz(0), RizzBehavior::Pursuing);
    assert_eq!(behavior_for_rizz(29_999), RizzBehavior::Pursuing);
    assert_eq!(behavior_for_rizz(30_000), RizzBehavior::Normal);
    assert_eq!(behavior_for_rizz(70_000), RizzBehavior::Normal);
    assert_eq!(behavior_for_rizz(70_001), RizzBehavior::Blissed);
}

#[test]
fn behavior_updates_only_on_change() {
    assert_eq!(update_rizz_behavior(None, 50_000), Some(RizzBehavior::Normal));
    assert_eq!(update_rizz_behavior(Some(RizzBehavior::Normal), 50_000), None);
    assert_eq!(update_rizz_behavior(Some(RizzBehavior::Normal), 80_000), Some(RizzBehavior::Blissed));
}

#[test]
fn rizz_decays_to_zero() {
    let mut head = FlowerHead::default();
    head.rizz = 7_000;
    head.decay_rizz(1000);
    assert_eq!(head.rizz, 2_000);
    head.decay_rizz(1000);
    assert_eq!(head.rizz, 0);
}

#[test]
fn rizz_gain_is_capped() {
    let mut head = FlowerHead::default();
    head.gain_rizz(60_000);
    head.gain_rizz(60_000);
    assert_eq!(head.rizz, 100_000);
}

#[test]
fn tickle_hits_nearest_head_only() {
    let mut heads = vec![FlowerHead::default(), FlowerHead::default()];
    heads[0].rizz = 50_000;
    heads[1].rizz = 50_000;
    let positions = vec![Point::new(100_000, 0), Point::new(10_000, 0)];
    let hit = handle_tickle_event(Point::new(0, 0), &positions, &mut heads);
    assert_eq!(hit, Some(1));
    assert_eq!(heads[0].rizz, 50_000);
    assert_eq!(heads[1].rizz, 20_000);
}

#[test]
fn tickle_on_equal_distance_takes_first() {
    let mut heads = vec![FlowerHead::default(), FlowerHead::default()];
    heads[0].rizz = 10_000;
    let positions = vec![Point::new(0, 5_000), Point::new(5_000, 0)];
    assert_eq!(handle_tickle_event(Point::new(0, 0), &positions, &mut heads), Some(0));
    assert_eq!(heads[0].rizz, 0);
}

#[test]
fn tickle_without_heads() {
    let mut heads: Vec<FlowerHead> = vec![];
    assert_eq!(handle_tickle_event(Point::new(0, 0), &vec![], &mut heads), None);
}

#[test]
fn attention_snap_moves_then_ends() {
    let mut snap = AttentionSnap::new(Point::new(0, 300_000));
    // 150 units/s for 100 ms.
    assert_eq!(update_attention_snap(&mut snap, Point::new(0, 0), 100), Some(Point::new(0, 15_000)));
    assert_eq!(update_attention_snap(&mut snap, Point::new(0, 0), 900), None);
}

#[test]
fn pursuing_head_chases_nearest_bee() {
    let bees = vec![Point::new(0, -500_000), Point::new(30_000, 40_000)];
    // 80 units/s for 500 ms = 40 units, along the 3-4-5 line.
    let o = pursue_bee(RizzBehavior::Pursuing, Point::new(0, 0), &bees, 500);
    assert_eq!(o, Point::new(24_000, 32_000));
    let still = pursue_bee(RizzBehavior::Normal, Point::new(0, 0), &bees, 500);
    assert_eq!(still, Point::new(0, 0));
    let alone = pursue_bee(RizzBehavior::Pursuing, Point::new(0, 0), &vec![], 500);
    assert_eq!(alone, Point::new(0, 0));
}

#[test]
fn heads_drop_pollen_every_two_seconds() {
    let mut heads = vec![FlowerHead::default(), FlowerHead::default()];
    heads[1].pollen_drop_timer.tick(1500);
    let drops = spawn_pollen_from_heads(0, &mut heads, 1000);
    assert_eq!(drops, vec![false, true]);
    assert_eq!(heads[1].pollen_drop_timer.elapsed_ms(), 500);
}

#[test]
fn no_pollen_drops_at_the_cap() {
    let mut heads = vec![FlowerHead::default()];
    heads[0].pollen_drop_timer.tick(1999);
    let drops = spawn_pollen_from_heads(100, &mut heads, 1000);
    assert_eq!(drops, vec![false]);
    assert_eq!(heads[0].pollen_drop_timer.elapsed_ms(), 1999);
}

#[test]
fn flower_defaults() {
    assert_eq!(Pollen::default().value, 1);
    assert_eq!(PollenCache::default().value, 5);
    let c = CacheSpawnPoint::default();
    assert!(c.is_active);
    assert_eq!(c.value, 5);
    assert_eq!(c.respawn_timer.duration_ms(), 10_000);
    let h = FlowerHead::default();
    assert_eq!(h.rizz, 0);
    assert_eq!(h.movement_pattern, MovementPattern::Circular { radius: 50_000, speed: 1000, angle: 0 });
    assert_eq!(h.pollen_drop_timer.duration_ms(), 2000);
}

#[test]
fn all_heads_lose_rizz() {
    let mut heads = vec![FlowerHead::default(), FlowerHead::default()];
    heads[0].rizz = 10_000;
    heads[1].rizz = 100;
    decay_rizz(&mut heads, 100);
    assert_eq!(heads[0].rizz, 9_500);
    assert_eq!(heads[1].rizz, 0);
}

#[test]
fn short_chase_keeps_the_speed() {
    // A bee one thousandth away on each axis: 80 thousandths along the
    // diagonal, not 80 on each axis.
    let o = pursue_bee(RizzBehavior::Pursuing, Point::new(0, 0), &vec![Point::new(1, 1)], 1);
    assert_eq!(o, Point::new(56, 56));
    let len2 = o.x * o.x + o.y * o.y;
    assert!(len2 <= 80 * 80 && len2 > 78 * 78);
}

#[test]
fn short_snap_keeps_the_speed() {
    let mut snap = AttentionSnap::new(Point::new(1, 1));
    let o = update_attention_snap(&mut snap, Point::new(0, 0), 1).unwrap();
    assert_eq!(o, Point::new(106, 106));
    let len2 = o.x * o.x + o.y * o.y;
    assert!(len2 <= 150 * 150 && len2 > 148 * 148);
}
