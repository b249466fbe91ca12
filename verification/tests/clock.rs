use ticktime::event::{compute_event, TickTimeEvent, TicketTimeEventValue};
use ticktime::{EarthLikeMonthType, TickTime, TickTimeOptions, TickTimeType, TickTimeValue};

fn lunar_calendar(seconds_per_tick: usize) -> TickTimeType {
    TickTimeType::EarthLike {
        seconds_per_tick,
        month_type: EarthLikeMonthType::Lunar,
    }
}

fn real_calendar(seconds_per_tick: usize) -> TickTimeType {
    TickTimeType::EarthLike {
        seconds_per_tick,
        month_type: EarthLikeMonthType::Real,
    }
}

fn irregular(seconds_per_tick: usize) -> TickTimeType {
    TickTimeType::Custom {
        seconds_per_tick,
        hours_in_a_day: 10,
        months_durations: vec![5, 0, 7, 1],
        seasons_durations: vec![3, 3, 3, 3, 1],
        week_duration: 4,
    }
}

fn calendars() -> Vec<TickTimeType> {
    vec![
        lunar_calendar(1),
        lunar_calendar(3600),
        lunar_calendar(86400 * 45),
        real_calendar(977),
        real_calendar(86400),
        real_calendar(86400 * 200),
        irregular(1),
        irregular(7919),
        irregular(36000),
    ]
}

fn start(current_tick: usize, tick_time_type: &TickTimeType, compute_events: bool) -> TickTime {
    TickTime::init(
        current_tick,
        TickTimeOptions {
            tick_time_type: tick_time_type.clone(),
            compute_events,
        },
    )
    .unwrap()
}

fn position(clock: &TickTime) -> TickTimeValue {
    TickTimeValue {
        year: clock.year(),
        season: clock.season(),
        week: clock.week(),
        month: clock.month(),
        day: clock.day(),
        hour: clock.hour(),
        minute: clock.minute(),
        second: clock.second(),
    }
}

fn change(old_value: usize, new_value: usize) -> Option<TicketTimeEventValue> {
    Some(TicketTimeEventValue { old_value, new_value })
}

#[test]
fn accessors_agree_with_the_tuple_of_values() {
    for calendar in calendars() {
        for current_tick in [0, 1, 250, 86399, 1234567] {
            let clock = start(current_tick, &calendar, false);
            assert_eq!(
                (
                    clock.year(),
                    clock.season(),
                    clock.week(),
                    clock.month(),
                    clock.day(),
                    clock.hour(),
                    clock.minute(),
                    clock.second()
                ),
                clock.values()
            );
            assert_eq!(current_tick, clock.current_tick());
        }
    }
}

#[test]
fn ticking_from_zero_equals_starting_at_the_tick() {
    for calendar in calendars() {
        let mut ticked = start(0, &calendar, false);
        for current_tick in 0..2000 {
            let started = start(current_tick, &calendar, false);
            assert_eq!(started.values(), ticked.values());
            assert_eq!(started.current_tick(), ticked.current_tick());
            ticked.tick();
        }
    }
}

#[test]
fn ticking_from_a_saved_tick_equals_starting_later() {
    for calendar in calendars() {
        let mut ticked = start(1_000_000, &calendar, true);
        for _ in 0..500 {
            ticked.tick();
        }
        assert_eq!(start(1_000_500, &calendar, true).values(), ticked.values());
    }
}

#[test]
fn position_does_not_depend_on_event_computing() {
    for calendar in calendars() {
        let mut silent = start(0, &calendar, false);
        let mut telling = start(0, &calendar, true);
        for _ in 0..1000 {
            silent.tick();
            telling.tick();
            assert_eq!(silent.values(), telling.values());
        }
    }
}

#[test]
fn every_tick_adds_one_to_the_count() {
    for calendar in calendars() {
        for compute_events in [false, true] {
            let mut clock = start(41, &calendar, compute_events);
            for expected in 42..300 {
                clock.tick();
                assert_eq!(expected, clock.current_tick());
            }
        }
    }
}

#[test]
fn count_reaches_the_largest_machine_word() {
    let mut clock = start(usize::MAX - 1, &lunar_calendar(1), true);
    clock.tick();
    assert_eq!(usize::MAX, clock.current_tick());
}

#[test]
fn earthlike_fields_stay_in_range() {
    for calendar in [lunar_calendar(3600 * 5), real_calendar(3600 * 5), lunar_calendar(86400 * 45), real_calendar(86400 * 45)] {
        let mut clock = start(0, &calendar, false);
        for _ in 0..20000 {
            let (year, season, week, month, day, hour, minute, second) = clock.values();
            assert!(second < 60);
            assert!(minute < 60);
            assert!(hour < 24);
            assert!(day < 31);
            assert!(month < 12);
            assert!(week < 53);
            assert!(season < 4);
            assert!(year <= clock.current_tick());
            clock.tick();
        }
    }
}

#[test]
fn custom_fields_stay_in_range() {
    let months = [5, 0, 7, 1];
    for seconds_per_tick in [1, 7919, 36000, 36000 * 13] {
        let mut clock = start(0, &irregular(seconds_per_tick), false);
        for _ in 0..20000 {
            let (_, season, week, month, day, hour, minute, second) = clock.values();
            assert!(second < 60);
            assert!(minute < 60);
            assert!(hour < 10);
            assert!(month < months.len());
            assert!(day < months[month]);
            assert!(week < 4);
            assert!(season < 4);
            clock.tick();
        }
    }
}

#[test]
fn lunar_month_turns_after_thirty_days_of_hourly_ticks() {
    let mut clock = start(0, &lunar_calendar(3600), true);
    for _ in 0..(24 * 29 + 23) {
        clock.tick();
    }
    assert_eq!((0, 0, 4, 0, 29, 23, 0, 0), clock.values());

    let event = clock.tick().unwrap();

    assert_eq!(720, clock.current_tick());
    assert_eq!((0, 0, 4, 1, 0, 0, 0, 0), clock.values());
    assert_eq!(
        TickTimeEvent {
            second_update: change(0, 0),
            minute_update: change(0, 0),
            hour_update: change(23, 0),
            day_update: change(29, 0),
            week_update: None,
            month_update: change(0, 1),
            season_update: None,
            year_update: None,
        },
        event
    );
}

#[test]
fn real_calendar_crosses_the_leap_year() {
    let first = start(250, &real_calendar(86400), false);
    assert_eq!(0, first.year());
    assert_eq!(2, first.season());
    assert_eq!(8, first.month());
    assert_eq!(6, first.day());

    let second = start(366 + 250, &real_calendar(86400), false);
    assert_eq!(1, second.year());
    assert_eq!(2, second.season());
    assert_eq!(8, second.month());
    assert_eq!(7, second.day());
}

#[test]
fn custom_calendar_with_irregular_months() {
    let calendar = TickTimeType::Custom {
        seconds_per_tick: 86400,
        hours_in_a_day: 24,
        months_durations: vec![1, 1, 3, 1, 1],
        seasons_durations: vec![7],
        week_duration: 7,
    };
    let mut clock = start(0, &calendar, false);
    let months_and_days = [(0, 0), (1, 0), (2, 0), (2, 1), (2, 2), (3, 0), (4, 0)];
    for tick in 0..=12 {
        assert_eq!(tick / 7, clock.year());
        assert_eq!(months_and_days[tick % 7], (clock.month(), clock.day()));
        if tick < 12 {
            clock.tick();
        }
    }
    assert_eq!((1, 0, 0, 3, 0, 0, 0, 0), clock.values());
}

#[test]
fn custom_calendar_with_days_of_twelve_hours() {
    let calendar = TickTimeType::Custom {
        seconds_per_tick: 3600,
        hours_in_a_day: 12,
        months_durations: vec![1, 1, 1, 1],
        seasons_durations: vec![4],
        week_duration: 7,
    };
    let mut clock = start(0, &calendar, false);
    for _ in 0..(24 * 40) {
        clock.tick();
    }
    assert_eq!((20, 0, 0, 0, 0, 0, 0, 0), clock.values());
}

#[test]
fn no_event_without_event_computing() {
    for calendar in calendars() {
        let mut clock = start(0, &calendar, false);
        for _ in 0..3000 {
            assert_eq!(None, clock.tick());
        }
    }
}

#[test]
fn every_tick_yields_the_event_of_its_two_positions() {
    for calendar in calendars() {
        let mut clock = start(0, &calendar, true);
        for _ in 0..3000 {
            let before = position(&clock);
            let event = clock.tick();
            let after = position(&clock);
            assert_eq!(Some(compute_event(&before, &after)), event);
        }
    }
}

#[test]
fn every_changed_field_is_in_the_event() {
    let entry = |present: &Option<TicketTimeEventValue>, old_value: usize, new_value: usize| {
        if old_value != new_value {
            assert_eq!(change(old_value, new_value), *present);
        } else if let Some(entry) = present {
            assert_eq!(change(old_value, new_value), Some(*entry));
        }
    };
    for calendar in calendars() {
        let mut clock = start(0, &calendar, true);
        for _ in 0..3000 {
            let before = position(&clock);
            let event = clock.tick().unwrap();
            let after = position(&clock);
            entry(&event.year_update, before.year, after.year);
            entry(&event.season_update, before.season, after.season);
            entry(&event.week_update, before.week, after.week);
            entry(&event.month_update, before.month, after.month);
            entry(&event.day_update, before.day, after.day);
            entry(&event.hour_update, before.hour, after.hour);
            entry(&event.minute_update, before.minute, after.minute);
            entry(&event.second_update, before.second, after.second);
            if event.year_update.is_some() {
                assert!(event.season_update.is_some());
                assert!(event.week_update.is_some());
                assert!(event.month_update.is_some());
            }
            if event.month_update.is_some() {
                assert!(event.day_update.is_some());
            }
            if event.day_update.is_some() {
                assert!(event.hour_update.is_some());
            }
            if event.hour_update.is_some() {
                assert!(event.minute_update.is_some());
            }
            if event.minute_update.is_some() {
                assert!(event.second_update.is_some());
            }
        }
    }
}

#[test]
fn first_event_of_a_saved_clock_compares_with_the_saved_position() {
    let mut clock = start(719, &lunar_calendar(3600), true);
    let event = clock.tick().unwrap();
    assert_eq!(change(29, 0), event.day_update);
    assert_eq!(change(0, 1), event.month_update);
    assert_eq!(None, event.year_update);
}

#[test]
fn year_turn_reports_fields_that_kept_their_value() {
    let mut clock = start(3, &lunar_calendar(86400 * 360), true);
    let event = clock.tick().unwrap();
    assert_eq!(
        TickTimeEvent {
            second_update: change(0, 0),
            minute_update: change(0, 0),
            hour_update: change(0, 0),
            day_update: change(0, 0),
            week_update: change(0, 0),
            month_update: change(0, 0),
            season_update: change(0, 0),
            year_update: change(3, 4),
        },
        event
    );
}

#[test]
fn clock_stands_still_once_the_seconds_reach_the_largest_machine_word() {
    // four ticks are the last that fit: usize::MAX is three more than a multiple of four
    let calendar = lunar_calendar(usize::MAX / 4);
    let mut clock = start(4, &calendar, true);
    let last_exact = clock.values();
    assert_eq!((usize::MAX - 3) % 60, last_exact.7);

    let event = clock.tick().unwrap();
    let stopped = clock.values();
    assert_eq!(usize::MAX % 60, stopped.7);
    assert_eq!(change(last_exact.7, stopped.7), event.second_update);

    assert_eq!(Some(TickTimeEvent::default()), clock.tick());
    assert_eq!(6, clock.current_tick());
    assert_eq!(stopped, clock.values());
    assert_eq!(stopped, start(usize::MAX, &calendar, true).values());
}

#[test]
fn clone_of_a_clock_goes_its_own_way() {
    let mut first = start(100, &real_calendar(86400), true);
    let copy = first.clone();
    assert_eq!(first.values(), copy.values());
    assert_eq!(first.current_tick(), copy.current_tick());
    first.tick();
    assert_eq!(101, first.current_tick());
    assert_eq!(100, copy.current_tick());
    assert_eq!(start(100, &real_calendar(86400), true).values(), copy.values());
}
