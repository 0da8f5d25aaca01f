use minikernel::datetime::{
    days_in_month, get_date, get_time, is_leap_year, set_date, set_time, DateTime,
};
use minikernel::ticks::{TickCounter, TICKS_PER_SECOND};

fn at(day: u8, month: u8, year: u16, hours: u8, minutes: u8, seconds: u8) -> DateTime {
    DateTime { day, month, year, hours, minutes, seconds }
}

#[test]
fn rollover_end_of_february_non_leap() {
    let mut clock = at(28, 2, 2023, 23, 59, 59);
    clock.update();
    assert_eq!(clock, at(1, 3, 2023, 0, 0, 0));
}

#[test]
fn rollover_end_of_february_leap() {
    let mut clock = at(28, 2, 2024, 23, 59, 59);
    clock.update();
    assert_eq!(clock, at(29, 2, 2024, 0, 0, 0));
}

#[test]
fn rollover_second_and_minute() {
    let mut clock = at(5, 6, 2023, 10, 20, 30);
    clock.update();
    assert_eq!(clock, at(5, 6, 2023, 10, 20, 31));
    let mut clock = at(5, 6, 2023, 10, 20, 59);
    clock.update();
    assert_eq!(clock, at(5, 6, 2023, 10, 21, 0));
    let mut clock = at(5, 6, 2023, 10, 59, 59);
    clock.update();
    assert_eq!(clock, at(5, 6, 2023, 11, 0, 0));
}

#[test]
fn rollover_end_of_year() {
    let mut clock = at(31, 12, 2023, 23, 59, 59);
    clock.update();
    assert_eq!(clock, at(1, 1, 2024, 0, 0, 0));
}

#[test]
fn rollover_end_of_thirty_day_month() {
    let mut clock = at(30, 4, 2023, 23, 59, 59);
    clock.update();
    assert_eq!(clock, at(1, 5, 2023, 0, 0, 0));
}

#[test]
fn rollover_from_out_of_range_fields_carries() {
    let mut clock = at(1, 1, 2023, 99, 99, 99);
    clock.update();
    assert_eq!(clock, at(2, 1, 2023, 0, 0, 0));
    let mut clock = at(1, 1, 2023, 12, 0, 255);
    clock.update();
    assert_eq!(clock, at(1, 1, 2023, 12, 1, 0));
}

#[test]
fn rollover_year_wraps_at_word_end() {
    let mut clock = at(31, 12, 65535, 23, 59, 59);
    clock.update();
    assert_eq!(clock, at(1, 1, 0, 0, 0, 0));
}

#[test]
fn leap_year_rule() {
    assert!(is_leap_year(2024));
    assert!(!is_leap_year(2023));
    assert!(!is_leap_year(1900));
    assert!(is_leap_year(2000));
}

#[test]
fn month_lengths() {
    let expected = [31u8, 28, 31, 30, 31, 30, 31, 31, 30, 31, 30, 31];
    for (i, days) in expected.iter().enumerate() {
        assert_eq!(days_in_month(i as u8 + 1, 2023), *days);
    }
    assert_eq!(days_in_month(2, 2024), 29);
    assert_eq!(days_in_month(0, 2023), 30);
    assert_eq!(days_in_month(13, 2023), 30);
}

#[test]
fn default_clock_and_snapshots() {
    let clock = DateTime::default();
    assert_eq!(clock, at(1, 1, 2023, 12, 0, 0));
    assert_eq!(get_time(&clock), (12, 0, 0));
    assert_eq!(get_date(&clock), (1, 1, 2023));
}

#[test]
fn set_time_and_date_store_values_unchecked() {
    let mut clock = DateTime::default();
    set_time(&mut clock, 99, 99, 99);
    assert_eq!(get_time(&clock), (99, 99, 99));
    assert_eq!(get_date(&clock), (1, 1, 2023));
    set_date(&mut clock, 31, 12, 1999);
    assert_eq!(get_date(&clock), (31, 12, 1999));
    assert_eq!(get_time(&clock), (99, 99, 99));
}

#[test]
fn ticks_increase_by_exactly_n() {
    let mut ticks = TickCounter::new();
    assert_eq!(ticks.value(), 0);
    let mut seconds = 0;
    let mut last = 0;
    for _ in 0..2500 {
        if ticks.tick() {
            seconds += 1;
        }
        assert!(ticks.value() > last);
        last = ticks.value();
    }
    assert_eq!(ticks.value(), 2500);
    assert_eq!(seconds, 2500 / TICKS_PER_SECOND);
}

#[test]
fn tick_signals_every_thousandth() {
    let mut ticks = TickCounter::new();
    for i in 1..=3000usize {
        assert_eq!(ticks.tick(), i % 1000 == 0);
    }
}
