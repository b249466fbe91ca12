use ticktime::{TickTime, TickTimeOptions, TickTimeType};

#[test]
fn custom_ticktime_should_compute_year() {
    let mut tick_time = TickTime::init(
        0,
        TickTimeOptions {
            tick_time_type:
            TickTimeType::Custom {
                seconds_per_tick: 3600 * 24,
                hours_in_a_day: 24,
                months_durations: vec![1, 1],
                seasons_durations: vec![2],
                week_duration: 7,
            },
            compute_events: false,
        },
    ).unwrap();

    for _ in 0..12 {
        tick_time.tick();
    }

    assert_eq!((6, 0, 0, 0, 0, 0, 0, 0), tick_time.values());
}

#[test]
fn custom_ticktime_should_compute_month() {
    let mut tick_time = TickTime::init(
        0,
        TickTimeOptions {
            tick_time_type:
            TickTimeType::Custom {
                seconds_per_tick: 3600 * 24,
                hours_in_a_day: 24,
                months_durations: vec![1, 1, 3, 1, 1],
                seasons_durations: vec![7],
                week_duration: 7,
            },
            compute_events: false,
        },
    ).unwrap();

    for _ in 0..12 {
        tick_time.tick();
    }

    assert_eq!((1, 0, 0, 3, 0, 0, 0, 0), tick_time.values());
}
