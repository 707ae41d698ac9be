use allerbees::bee::{
    apply_wiggle, handle_wiggle_input, update_allergy_from_proximity, update_wiggle_cooldown, update_wiggling, collect_caches, collect_pollen, move_toward_target,
    proximity_step_exec, trigger_sneeze, update_sneezing, wiggle_rizz_gain, AllergyMeter,
    CollectedPollen, MoveTarget, SneezeCount, Sneezing, WiggleCooldown, Wiggling,
};
use allerbees::config::{AllergyConfig, MovementConfig, SneezeConfig};
use allerbees::flower::{CacheSpawnPoint, FlowerHead};
use allerbees::geometry::Point;

#[test]
fn wiggle_cooldown_starts_not_ready_after_start() {
    let mut cooldown = WiggleCooldown::default();
    assert!(cooldown.is_ready());

    cooldown.start();
    assert!(!cooldown.is_ready());
}

#[test]
fn allergy_meter_clamps_to_max() {
    let mut meter = AllergyMeter::new(100_000);
    meter.value = 99_000;

    // Ten points gained right at a head (100 points a second for 100 ms).
    meter.value = proximity_step_exec(meter.value, meter.max, Some(0), 100, 200_000, 5, 100);
    assert_eq!(meter.value, 100_000);
}

#[test]
fn allergy_meter_clamps_to_zero() {
    let mut meter = AllergyMeter::new(100_000);
    meter.value = 5_000;

    // Ten points of decay (10 points a second for a second) with no head near.
    meter.value = proximity_step_exec(meter.value, meter.max, None, 100, 200_000, 10, 1000);
    assert_eq!(meter.value, 0);
}

#[test]
fn allergy_meter_percentage() {
    let mut meter = AllergyMeter::new(100_000);
    meter.value = 50_000;
    assert_eq!(meter.percentage(), 500);
}

#[test]
fn allergy_meter_should_sneeze() {
    let mut meter = AllergyMeter::new(100_000);
    meter.value = 79_000;
    assert!(!meter.should_sneeze(80_000));

    meter.value = 80_000;
    assert!(meter.should_sneeze(80_000));

    meter.value = 81_000;
    assert!(meter.should_sneeze(80_000));
}

#[test]
fn collected_pollen_drop_percentage() {
    let mut pollen = CollectedPollen { count: 20 };
    let dropped = pollen.drop_percentage(25);
    assert_eq!(dropped, 5);
    assert_eq!(pollen.count, 15);
}

#[test]
fn collected_pollen_drop_rounds_up() {
    let mut pollen = CollectedPollen { count: 10 };
    let dropped = pollen.drop_percentage(25);
    assert_eq!(dropped, 3); // ceil(2.5) = 3
    assert_eq!(pollen.count, 7);
}

#[test]
fn move_target_set_and_clear() {
    let mut target = MoveTarget::default();
    assert!(target.destination.is_none());

    target.set(Point::new(100_000, 50_000));
    assert_eq!(target.destination, Some(Point::new(100_000, 50_000)));

    target.clear();
    assert!(target.destination.is_none());
}

#[test]
fn sneezing_timer_defaults_to_half_second() {
    let sneezing = Sneezing::default();
    assert_eq!(sneezing.timer.duration_ms(), 500);
}

#[test]
fn allergy_default_meter_is_empty_with_max_hundred() {
    let meter = AllergyMeter::default();
    assert_eq!(meter.value, 0);
    assert_eq!(meter.max, 100_000);
}

#[test]
fn allergy_builds_up_by_nearness() {
    // Half the threshold away: half the rate. 100 pts/s * 0.1 s / 2 = 5 points.
    let mut meter = AllergyMeter::new(100_000);
    meter.value = 10_000;
    let heads = vec![Point::new(100_000, 0), Point::new(400_000, 0)];
    update_allergy_from_proximity(&mut meter, Point::new(0, 0), &heads, &AllergyConfig::default(), 100);
    assert_eq!(meter.value, 15_000);
}

#[test]
fn allergy_uses_nearest_head_not_first() {
    let mut meter = AllergyMeter::new(100_000);
    let heads = vec![Point::new(300_000, 0), Point::new(0, 150_000)];
    // Nearest at 150 units: a quarter of the rate; 100 * 0.2 s / 4 = 5 points.
    update_allergy_from_proximity(&mut meter, Point::new(0, 0), &heads, &AllergyConfig::default(), 200);
    assert_eq!(meter.value, 5_000);
}

#[test]
fn allergy_decays_far_from_heads() {
    let mut meter = AllergyMeter::new(100_000);
    meter.value = 10_000;
    let heads = vec![Point::new(200_000, 0)];
    // Exactly at the threshold counts as far: 5 pts/s for a second.
    update_allergy_from_proximity(&mut meter, Point::new(0, 0), &heads, &AllergyConfig::default(), 1000);
    assert_eq!(meter.value, 5_000);
}

#[test]
fn allergy_decays_with_no_heads() {
    let mut meter = AllergyMeter::new(100_000);
    meter.value = 3_000;
    update_allergy_from_proximity(&mut meter, Point::new(0, 0), &vec![], &AllergyConfig::default(), 1000);
    assert_eq!(meter.value, 0);
}

#[test]
fn sneeze_drops_pollen_and_resets_meter() {
    let mut meter = AllergyMeter::new(100_000);
    meter.value = 80_000;
    let mut collected = CollectedPollen { count: 12 };
    let mut sneezes = SneezeCount::default();
    let dropped = trigger_sneeze(&mut meter, &mut collected, &mut sneezes, &SneezeConfig::default());
    assert_eq!(dropped, Some(3));
    assert_eq!(collected.count, 9);
    assert_eq!(meter.value, 20_000);
    assert_eq!(sneezes.count, 1);
}

#[test]
fn no_sneeze_under_threshold() {
    let mut meter = AllergyMeter::new(100_000);
    meter.value = 79_999;
    let mut collected = CollectedPollen { count: 12 };
    let mut sneezes = SneezeCount::default();
    let dropped = trigger_sneeze(&mut meter, &mut collected, &mut sneezes, &SneezeConfig::default());
    assert_eq!(dropped, None);
    assert_eq!(collected.count, 12);
    assert_eq!(meter.value, 79_999);
    assert_eq!(sneezes.count, 0);
}

#[test]
fn drop_of_empty_pocket_is_zero() {
    let mut pollen = CollectedPollen { count: 0 };
    assert_eq!(pollen.drop_percentage(25), 0);
    assert_eq!(pollen.count, 0);
}

#[test]
fn drop_over_hundred_percent_empties() {
    let mut pollen = CollectedPollen { count: 4 };
    assert_eq!(pollen.drop_percentage(150), 6);
    assert_eq!(pollen.count, 0);
}

#[test]
fn sneezing_clears_target_and_ends() {
    let mut sneezing = Sneezing::default();
    let mut target = MoveTarget::default();
    target.set(Point::new(5, 5));
    assert!(!update_sneezing(&mut sneezing, &mut target, 300));
    assert!(target.destination.is_none());
    assert!(update_sneezing(&mut sneezing, &mut target, 300));
}

#[test]
fn bee_moves_toward_target_by_speed() {
    let mut pos = Point::new(0, 0);
    let mut target = MoveTarget::default();
    target.set(Point::new(300_000, 400_000));
    // 150 units/s for 100 ms = 15 units along a 3-4-5 line.
    move_toward_target(&mut pos, &mut target, &MovementConfig::default(), 100);
    assert_eq!(pos, Point::new(9_000, 12_000));
    assert_eq!(target.destination, Some(Point::new(300_000, 400_000)));
}

#[test]
fn bee_lands_on_near_target() {
    let mut pos = Point::new(0, 0);
    let mut target = MoveTarget::default();
    target.set(Point::new(-10_000, 0));
    move_toward_target(&mut pos, &mut target, &MovementConfig::default(), 100);
    assert_eq!(pos, Point::new(-10_000, 0));
    assert!(target.destination.is_none());
}

#[test]
fn bee_without_target_stays() {
    let mut pos = Point::new(7, 8);
    let mut target = MoveTarget::default();
    move_toward_target(&mut pos, &mut target, &MovementConfig::default(), 100);
    assert_eq!(pos, Point::new(7, 8));
}

#[test]
fn wiggle_lasts_half_a_second() {
    let mut w = Wiggling::new(42);
    assert!(!w.advance(499));
    assert!(w.advance(1));
    assert_eq!(w.original_x, 42);
}

#[test]
fn wiggle_needs_press_and_cooldown() {
    assert!(!handle_wiggle_input(false, None));
    assert!(handle_wiggle_input(true, None));
    let mut cd = WiggleCooldown::default();
    assert!(handle_wiggle_input(true, Some(cd)));
    cd.start();
    assert!(!handle_wiggle_input(true, Some(cd)));
    update_wiggle_cooldown(&mut cd, 2000);
    assert!(handle_wiggle_input(true, Some(cd)));
}

#[test]
fn wiggle_gain_falls_with_distance() {
    assert_eq!(wiggle_rizz_gain(0), 20_000);
    assert_eq!(wiggle_rizz_gain(75_000), 10_000);
    assert_eq!(wiggle_rizz_gain(150_000), 0);
    assert_eq!(wiggle_rizz_gain(150_001), 0);
}

#[test]
fn wiggle_charms_heads_in_range_only() {
    let mut heads = vec![FlowerHead::default(), FlowerHead::default(), FlowerHead::default()];
    heads[1].rizz = 95_000;
    heads[2].rizz = 1_000;
    let positions = vec![Point::new(75_000, 0), Point::new(0, 0), Point::new(0, 160_000)];
    apply_wiggle(Point::new(0, 0), &positions, &mut heads);
    assert_eq!(heads[0].rizz, 10_000);
    assert_eq!(heads[1].rizz, 100_000);
    assert_eq!(heads[2].rizz, 1_000);
}

#[test]
fn pollen_within_reach_is_collected() {
    let mut collected = CollectedPollen { count: 2 };
    let positions = vec![Point::new(25_000, 0), Point::new(25_001, 0), Point::new(0, -3_000)];
    let values = vec![1, 7, 4];
    let taken = collect_pollen(Point::new(0, 0), &positions, &values, &mut collected);
    assert_eq!(taken, vec![true, false, true]);
    assert_eq!(collected.count, 7);
}

#[test]
fn active_caches_in_reach_are_emptied() {
    let mut caches = vec![CacheSpawnPoint::default(), CacheSpawnPoint::default(), CacheSpawnPoint::default()];
    caches[1].is_active = false;
    caches[0].respawn_timer.tick(3000);
    let positions = vec![Point::new(0, 30_000), Point::new(0, 0), Point::new(40_000, 0)];
    let mut collected = CollectedPollen::default();
    let taken = collect_caches(Point::new(0, 0), &positions, &mut caches, &mut collected);
    assert_eq!(taken, vec![true, false, false]);
    assert_eq!(collected.count, 5);
    assert!(!caches[0].is_active);
    assert_eq!(caches[0].respawn_timer.elapsed_ms(), 0);
    assert!(caches[2].is_active);
}

#[test]
fn finished_wiggle_charms_heads() {
    let mut w = Wiggling::new(0);
    let positions = vec![Point::new(0, 30_000)];
    let mut heads = vec![FlowerHead::default()];
    assert!(!update_wiggling(&mut w, Point::new(0, 0), &positions, &mut heads, 400));
    assert_eq!(heads[0].rizz, 0);
    assert!(update_wiggling(&mut w, Point::new(0, 0), &positions, &mut heads, 100));
    // 20 points * (150 - 30) / 150 = 16 points.
    assert_eq!(heads[0].rizz, 16_000);
}

#[test]
fn no_sneeze_needs_no_room_in_the_count() {
    let mut meter = AllergyMeter::new(100_000);
    meter.value = 10_000;
    let mut collected = CollectedPollen { count: 3 };
    let mut sneezes = SneezeCount { count: u32::MAX };
    let dropped = trigger_sneeze(&mut meter, &mut collected, &mut sneezes, &SneezeConfig::default());
    assert_eq!(dropped, None);
    assert_eq!(sneezes.count, u32::MAX);
}
