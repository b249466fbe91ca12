use ticktime::snapshot::{
    apply_current_tick, compute_custom_date_time_values, compute_earthlike_time,
};
use ticktime::{EarthLikeMonthType, TickTimeType, TickTimeValue};

fn position(fields: (usize, usize, usize, usize, usize, usize, usize, usize)) -> TickTimeValue {
    TickTimeValue {
        year: fields.0,
        season: fields.1,
        week: fields.2,
        month: fields.3,
        day: fields.4,
        hour: fields.5,
        minute: fields.6,
        second: fields.7,
    }
}

#[test]
fn default_position_is_all_zero() {
    assert_eq!(position((0, 0, 0, 0, 0, 0, 0, 0)), TickTimeValue::default());
}

#[test]
fn earthlike_time_of_day() {
    let lunar = EarthLikeMonthType::Lunar;
    assert_eq!(position((0, 0, 0, 0, 0, 0, 0, 59)), compute_earthlike_time(59, 1, &lunar));
    assert_eq!(position((0, 0, 0, 0, 0, 0, 1, 0)), compute_earthlike_time(60, 1, &lunar));
    assert_eq!(position((0, 0, 0, 0, 0, 0, 59, 59)), compute_earthlike_time(3599, 1, &lunar));
    assert_eq!(position((0, 0, 0, 0, 0, 1, 0, 0)), compute_earthlike_time(3600, 1, &lunar));
    assert_eq!(position((0, 0, 0, 0, 0, 23, 59, 59)), compute_earthlike_time(86399, 1, &lunar));
    assert_eq!(position((0, 0, 0, 0, 1, 0, 0, 0)), compute_earthlike_time(86400, 1, &lunar));
}

#[test]
fn earthlike_position_with_odd_tick_length() {
    assert_eq!(
        position((3877, 3, 44, 10, 13, 8, 47, 33)),
        compute_earthlike_time(123456789, 977, &EarthLikeMonthType::Lunar)
    );
    assert_eq!(
        position((3822, 0, 6, 1, 16, 8, 47, 33)),
        compute_earthlike_time(123456789, 977, &EarthLikeMonthType::Real)
    );
}

#[test]
fn custom_position_with_short_days_and_an_empty_month() {
    let months = vec![5, 0, 7];
    let seasons = vec![4, 4, 4];
    assert_eq!(
        position((139, 1, 1, 2, 0, 5, 14, 54)),
        compute_custom_date_time_values(987654, 61, 10, &months, &seasons, 5)
    );
    assert_eq!(
        position((0, 0, 0, 0, 0, 0, 0, 0)),
        compute_custom_date_time_values(0, 61, 10, &months, &seasons, 5)
    );
}

#[test]
fn custom_days_of_twelve_hours() {
    let months = vec![1, 1, 1, 1];
    let seasons = vec![4];
    assert_eq!(
        position((20, 0, 0, 0, 0, 0, 0, 0)),
        compute_custom_date_time_values(24 * 40, 3600, 12, &months, &seasons, 7)
    );
    assert_eq!(
        position((0, 0, 0, 1, 0, 1, 0, 0)),
        compute_custom_date_time_values(13, 3600, 12, &months, &seasons, 7)
    );
}

#[test]
fn custom_seasons_beyond_the_fourth_start_over() {
    let months = vec![6];
    let seasons = vec![1, 1, 1, 1, 1, 1];
    let expected_seasons = [0, 1, 2, 3, 0, 1];
    for (day, season) in expected_seasons.iter().enumerate() {
        let values = compute_custom_date_time_values(day, 86400, 24, &months, &seasons, 7);
        assert_eq!(*season, values.season);
        assert_eq!(day, values.day);
    }
}

#[test]
fn custom_year_longer_than_a_machine_word_never_ends() {
    let months = vec![usize::MAX, usize::MAX];
    let seasons = vec![usize::MAX, usize::MAX];
    let values = compute_custom_date_time_values(usize::MAX, 1, 1, &months, &seasons, 1);
    let days = usize::MAX / 3600;
    assert_eq!(0, values.year);
    assert_eq!(0, values.month);
    assert_eq!(days, values.day);
    assert_eq!(days, values.week);
    assert_eq!(0, values.season);
}

#[test]
fn seconds_stop_at_the_largest_machine_word() {
    // usize::MAX is 18446744073709551615 on a 64-bit machine
    if usize::MAX as u128 == u64::MAX as u128 {
        let lunar = EarthLikeMonthType::Lunar;
        let stopped = position((593066617596, 0, 5, 1, 11, 7, 0, 15));
        assert_eq!(stopped, compute_earthlike_time(usize::MAX, 1, &lunar));
        assert_eq!(stopped, compute_earthlike_time(usize::MAX, 2, &lunar));
        assert_eq!(stopped, compute_earthlike_time(usize::MAX / 2 + 1, 2, &lunar));
        assert_eq!(stopped, compute_earthlike_time(3, usize::MAX, &lunar));
        assert_eq!(
            position((584542046090, 2, 32, 7, 16, 7, 0, 15)),
            compute_earthlike_time(usize::MAX, usize::MAX, &EarthLikeMonthType::Real)
        );
        assert_eq!(
            position((42700796466920, 0, 0, 0, 3, 1, 0, 15)),
            compute_custom_date_time_values(
                usize::MAX,
                3,
                10,
                &vec![5, 0, 7],
                &vec![4, 4, 4],
                5
            )
        );
    }
}

#[test]
fn last_product_that_fits_is_not_cut() {
    let lunar = EarthLikeMonthType::Lunar;
    let half = usize::MAX / 2;
    let values = compute_earthlike_time(half, 2, &lunar);
    let total_seconds = half * 2;
    assert_eq!(total_seconds % 60, values.second);
    assert_eq!((total_seconds / 60) % 60, values.minute);
    assert_eq!((total_seconds / 3600) % 24, values.hour);
    assert_eq!(total_seconds / 86400 / 360, values.year);
}

#[test]
fn apply_current_tick_follows_the_calendar_kind() {
    let lunar = TickTimeType::EarthLike {
        seconds_per_tick: 86400,
        month_type: EarthLikeMonthType::Lunar,
    };
    let real = TickTimeType::EarthLike {
        seconds_per_tick: 86400,
        month_type: EarthLikeMonthType::Real,
    };
    let custom = TickTimeType::Custom {
        seconds_per_tick: 86400,
        hours_in_a_day: 24,
        months_durations: vec![1, 1, 3, 1, 1],
        seasons_durations: vec![7],
        week_duration: 7,
    };
    assert_eq!(position((0, 2, 35, 8, 10, 0, 0, 0)), apply_current_tick(250, &lunar));
    assert_eq!(position((0, 2, 35, 8, 6, 0, 0, 0)), apply_current_tick(250, &real));
    assert_eq!(position((35, 0, 0, 3, 0, 0, 0, 0)), apply_current_tick(250, &custom));
}
