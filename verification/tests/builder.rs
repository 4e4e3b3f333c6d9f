use heart::internal::executor::{calculate_tick_duration, Clock, Config, Executor};
use heart::HeartBuilder;

#[test]
fn builder_starts_with_the_defaults() {
    let builder = heart::build();
    assert!(builder.app_config.title.is_none());
    assert_eq!(builder.executor_config.tick_duration, 16_666_666);
    let same = HeartBuilder::new();
    assert!(same.app_config.title.is_none());
    assert_eq!(same.executor_config, builder.executor_config);
    assert_eq!(Config::default().tick_duration, 16_666_666);
}

#[test]
fn builder_takes_title_and_tick_rate() {
    let builder = heart::build().with_title(String::from("heart")).with_tick_rate(30);
    assert_eq!(builder.app_config.title.as_deref(), Some("heart"));
    assert_eq!(builder.executor_config.tick_duration, 33_333_333);
    let renamed = builder.with_title(String::from("other"));
    assert_eq!(renamed.app_config.title.as_deref(), Some("other"));
    assert_eq!(renamed.executor_config.tick_duration, 33_333_333);
}

#[test]
fn run_hands_over_a_fresh_start() {
    let mut heart = heart::build().with_title(String::from("game")).with_tick_rate(1000).run();
    assert_eq!(heart.app_config.take_title(), "game");
    assert_eq!(heart.executor.tick_duration(), 1_000_000);
    assert!(!heart.keyboard.get_key(heart::keyboard::Scancode::Space));
    assert!(!heart.mouse.get_button(heart::mouse::Button::Left));
    assert_eq!(heart.mouse.get_position(), (0x7fc0_0000, 0x7fc0_0000));
    assert!(!heart.executor.update(1_000_000));
    assert!(heart.executor.update(1));
}

#[test]
fn tick_duration_is_a_second_by_the_rate() {
    assert_eq!(calculate_tick_duration(60), 16_666_666);
    assert_eq!(calculate_tick_duration(1), 1_000_000_000);
    assert_eq!(calculate_tick_duration(3_000_000_000), 0);
}

#[test]
fn clock_ticks_once_and_drops_what_is_too_much() {
    let mut clock = Clock::new();
    assert_eq!(clock.collected, 0);
    assert!(!clock.tick(60, 100));
    assert_eq!(clock.collected, 60);
    assert!(!clock.tick(40, 100));
    assert_eq!(clock.collected, 100);
    assert!(clock.tick(50, 100));
    assert_eq!(clock.collected, 50);
    assert!(clock.tick(150, 100));
    assert_eq!(clock.collected, 100);
    assert!(clock.tick(101, 100));
    assert_eq!(clock.collected, 0);
    assert!(clock.tick(u64::MAX, 100));
    assert_eq!(clock.collected, 0);
}

#[test]
fn executor_runs_updates_at_the_tick_rate() {
    let mut executor = Executor::new(Config { tick_duration: 10 });
    // collected: 4, 8, 12 -> 2, 6, 10 (not more than a tick), 40 -> dropped, 1
    let due: Vec<bool> = [4, 4, 4, 4, 4, 30, 1].iter().map(|e| executor.update(*e)).collect();
    assert_eq!(due, vec![false, false, true, false, false, true, false]);
}
