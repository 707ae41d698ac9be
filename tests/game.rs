use allerbees::bee::{AllergyMeter, CollectedPollen, MoveTarget, SneezeCount};
use allerbees::config::GameConfig;
use allerbees::game::{
    check_lose_condition, check_win_condition, decimal_text, handle_restart_input, reset_game_on_restart,
    stop_timer_on_end, update_timer, GameState, SessionTimer,
};
use allerbees::geometry::Point;

#[test]
fn game_starts_playing() {
    assert_eq!(GameState::default(), GameState::Playing);
}

#[test]
fn win_at_twenty_pollen() {
    assert_eq!(check_win_condition(GameState::Playing, &vec![3, 19]), None);
    assert_eq!(check_win_condition(GameState::Playing, &vec![3, 20]), Some(GameState::Won));
    assert_eq!(check_win_condition(GameState::Lost, &vec![25]), None);
    assert_eq!(check_win_condition(GameState::Playing, &vec![]), None);
}

#[test]
fn lose_on_full_meter_or_three_sneezes() {
    let mut full = AllergyMeter::new(100_000);
    full.value = 100_000;
    let calm = AllergyMeter::new(100_000);
    assert_eq!(check_lose_condition(GameState::Playing, &vec![full], &vec![None]), Some(GameState::Lost));
    assert_eq!(check_lose_condition(GameState::Playing, &vec![calm], &vec![Some(2)]), None);
    assert_eq!(check_lose_condition(GameState::Playing, &vec![calm], &vec![Some(3)]), Some(GameState::Lost));
    assert_eq!(check_lose_condition(GameState::Playing, &vec![calm], &vec![None]), None);
    assert_eq!(check_lose_condition(GameState::Won, &vec![full], &vec![Some(9)]), None);
}

#[test]
fn restart_only_after_the_end() {
    assert_eq!(handle_restart_input(GameState::Won, true), Some(GameState::Playing));
    assert_eq!(handle_restart_input(GameState::Lost, true), Some(GameState::Playing));
    assert_eq!(handle_restart_input(GameState::Lost, false), None);
    assert_eq!(handle_restart_input(GameState::Playing, true), None);
}

#[test]
fn reset_puts_bee_back() {
    let mut pos = Point::new(5, 5);
    let mut meter = AllergyMeter::new(100_000);
    meter.value = 70_000;
    let mut collected = CollectedPollen { count: 9 };
    let mut target = MoveTarget::default();
    target.set(Point::new(1, 1));
    let mut sneezes = SneezeCount { count: 2 };
    reset_game_on_restart(&mut pos, &mut meter, &mut collected, &mut target, &mut sneezes);
    assert_eq!(pos, Point::new(-200_000, 0));
    assert_eq!(meter.value, 0);
    assert_eq!(collected.count, 0);
    assert!(target.destination.is_none());
    assert_eq!(sneezes.count, 0);
}

#[test]
fn session_clock_counts_only_while_playing() {
    let mut t = SessionTimer::default();
    update_timer(&mut t, GameState::Playing, 100);
    assert_eq!(t.elapsed_ms, 0);
    t.reset();
    update_timer(&mut t, GameState::Playing, 100);
    update_timer(&mut t, GameState::Won, 100);
    assert_eq!(t.elapsed_ms, 100);
    assert!(stop_timer_on_end(&mut t, GameState::Won));
    assert!(!t.running);
    assert!(!stop_timer_on_end(&mut t, GameState::Lost));
    update_timer(&mut t, GameState::Playing, 100);
    assert_eq!(t.elapsed_ms, 100);
}

#[test]
fn clock_stays_running_during_play() {
    let mut t = SessionTimer::default();
    t.reset();
    assert!(!stop_timer_on_end(&mut t, GameState::Playing));
    assert!(t.running);
}

#[test]
fn clock_text_pads_minutes_and_seconds() {
    let t = SessionTimer { elapsed_ms: 65_300, running: true };
    assert_eq!(t.formatted(), "01:05.3");
    let z = SessionTimer::default();
    assert_eq!(z.formatted(), "00:00.0");
    let long = SessionTimer { elapsed_ms: 6_000_000 + 59_999, running: false };
    assert_eq!(long.formatted(), "100:59.9");
}

#[test]
fn decimal_text_of_numbers() {
    assert_eq!(decimal_text(0), "0");
    assert_eq!(decimal_text(407), "407");
    assert_eq!(decimal_text(u64::MAX), u64::MAX.to_string());
}

#[test]
fn default_config_values() {
    let c = GameConfig::default();
    assert_eq!(c.allergy.max_value, 100_000);
    assert_eq!(c.allergy.base_decay_rate, 5);
    assert_eq!(c.allergy.proximity_multiplier, 100);
    assert_eq!(c.allergy.proximity_threshold, 200_000);
    assert_eq!(c.sneeze.threshold, 80_000);
    assert_eq!(c.sneeze.drop_percent, 25);
    assert_eq!(c.sneeze.post_sneeze_value, 20_000);
    assert_eq!(c.pollen.base_value, 1);
    assert_eq!(c.pollen.cache_value, 5);
    assert_eq!(c.pollen.win_threshold, 50);
    assert_eq!(c.movement.bee_speed, 150);
    assert_eq!(c.movement.flower_head_speed, 50);
}
