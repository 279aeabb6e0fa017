use click::interval::{
    base_delay_nanos, compute_base_delay, IntervalConfig, IntervalMode, TimeInterval,
};
use std::time::Duration;

fn fixed(hours: u8, minutes: u8, seconds: u8, milliseconds: u16) -> IntervalConfig {
    IntervalConfig {
        mode: IntervalMode::Time,
        time: TimeInterval { hours, minutes, seconds, milliseconds },
        cps: 20,
    }
}

fn rate(cps: u16) -> IntervalConfig {
    IntervalConfig { mode: IntervalMode::Cps, time: TimeInterval::default(), cps }
}

#[test]
fn default_interval_is_200_ms() {
    let t = TimeInterval::default();
    assert_eq!(t, TimeInterval { hours: 0, minutes: 0, seconds: 0, milliseconds: 200 });
    assert_eq!(t.total_millis(), 200);
    assert_eq!(t.to_duration(), Duration::from_millis(200));
}

#[test]
fn one_hour_is_3_600_000_ms() {
    let t = TimeInterval { hours: 1, minutes: 0, seconds: 0, milliseconds: 0 };
    assert_eq!(t.total_millis(), 3_600_000);
    assert_eq!(t.to_duration(), Duration::from_millis(3_600_000));
    assert_eq!(compute_base_delay(fixed(1, 0, 0, 0)), Duration::from_secs(3600));
}

#[test]
fn zero_interval_rounds_up_to_1_ms() {
    let t = TimeInterval { hours: 0, minutes: 0, seconds: 0, milliseconds: 0 };
    assert_eq!(t.total_millis(), 1);
    assert_eq!(t.to_duration(), Duration::from_millis(1));
    assert_eq!(base_delay_nanos(fixed(0, 0, 0, 0)), 1_000_000);
    assert_eq!(compute_base_delay(fixed(0, 0, 0, 0)), Duration::from_millis(1));
}

#[test]
fn fields_add_up() {
    let t = TimeInterval { hours: 2, minutes: 3, seconds: 4, milliseconds: 5 };
    assert_eq!(t.total_millis(), 2 * 3_600_000 + 3 * 60_000 + 4 * 1_000 + 5);
    assert_eq!(t.to_duration(), Duration::from_millis(7_384_005));
}

#[test]
fn largest_fields_do_not_overflow() {
    let t = TimeInterval { hours: 255, minutes: 255, seconds: 255, milliseconds: 65_535 };
    assert_eq!(t.total_millis(), 933_620_535);
    assert_eq!(base_delay_nanos(fixed(255, 255, 255, 65_535)), 933_620_535_000_000);
    assert_eq!(
        compute_base_delay(fixed(255, 255, 255, 65_535)),
        Duration::from_millis(933_620_535)
    );
}

#[test]
fn milliseconds_above_999_count_in_full() {
    let t = TimeInterval { hours: 0, minutes: 0, seconds: 1, milliseconds: 1_500 };
    assert_eq!(t.to_duration(), Duration::from_millis(2_500));
}

#[test]
fn rate_of_20_gives_50_ms() {
    assert_eq!(base_delay_nanos(rate(20)), 50_000_000);
    assert_eq!(compute_base_delay(rate(20)), Duration::from_millis(50));
}

#[test]
fn rate_of_0_counts_as_1() {
    assert_eq!(base_delay_nanos(rate(0)), 1_000_000_000);
    assert_eq!(compute_base_delay(rate(0)), Duration::from_millis(1000));
    assert_eq!(compute_base_delay(rate(0)), compute_base_delay(rate(1)));
}

#[test]
fn rate_keeps_fractions_of_a_millisecond() {
    assert_eq!(base_delay_nanos(rate(3)), 333_333_333);
    assert_eq!(compute_base_delay(rate(3)), Duration::from_nanos(333_333_333));
    assert_eq!(compute_base_delay(rate(300)), Duration::from_nanos(3_333_333));
}

#[test]
fn rate_rounds_to_the_nearest_nanosecond() {
    assert_eq!(base_delay_nanos(rate(6)), 166_666_667);
    assert_eq!(base_delay_nanos(rate(7)), 142_857_143);
    assert_eq!(base_delay_nanos(rate(9)), 111_111_111);
    assert_eq!(compute_base_delay(rate(7)), Duration::from_nanos(142_857_143));
    for cps in 1..=1000u16 {
        assert_eq!(compute_base_delay(rate(cps)), Duration::from_secs_f64(1.0 / cps as f64));
    }
}

#[test]
fn rate_above_1000_is_raised_to_1_ms() {
    assert_eq!(compute_base_delay(rate(1000)), Duration::from_millis(1));
    assert_eq!(compute_base_delay(rate(1001)), Duration::from_millis(1));
    assert_eq!(compute_base_delay(rate(u16::MAX)), Duration::from_millis(1));
}

#[test]
fn rate_mode_ignores_the_time_fields() {
    let config = IntervalConfig {
        mode: IntervalMode::Cps,
        time: TimeInterval { hours: 9, minutes: 9, seconds: 9, milliseconds: 9 },
        cps: 4,
    };
    assert_eq!(compute_base_delay(config), Duration::from_millis(250));
}

#[test]
fn time_mode_ignores_the_rate() {
    let mut config = fixed(0, 0, 2, 0);
    config.cps = 1000;
    assert_eq!(compute_base_delay(config), Duration::from_secs(2));
}

#[test]
fn base_delay_is_never_below_1_ms() {
    let rates: [u16; 7] = [0, 1, 2, 999, 1000, 1001, u16::MAX];
    for cps in rates {
        assert!(compute_base_delay(rate(cps)) >= Duration::from_millis(1));
    }
    let times: [(u8, u8, u8, u16); 4] = [(0, 0, 0, 0), (0, 0, 0, 1), (0, 0, 1, 0), (23, 59, 59, 999)];
    for (h, m, s, ms) in times {
        assert!(compute_base_delay(fixed(h, m, s, ms)) >= Duration::from_millis(1));
    }
}
