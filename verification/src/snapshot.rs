//! From a tick count to a full calendar position.
//!
//! The seconds that have passed are the tick count times the seconds per tick.
//! From them come the time of day and the number of whole days, and from the
//! days comes the date, by the rules of the configured calendar.
//!
//! The seconds are counted in a machine word. A product too large for the word
//! counts as the largest value the word holds, so a clock that has run past
//! that point stands still.

use vstd::prelude::*;
use vstd::arithmetic::div_mod::lemma_div_denominator;
use crate::calendar::{
    compute_lunar_calendar_value,
    compute_real_calendar_value,
    custom_date,
    date_of_tuple,
    lemma_custom_date_fits,
    lemma_custom_date_in_range,
    lemma_lunar_date_fits,
    lemma_lunar_date_in_range,
    lemma_real_date_fits,
    lemma_real_date_in_range,
    lunar_date,
    real_date,
    real_month_lengths,
    CalendarDate,
};
use crate::leap::is_leap_year;
use crate::mode::{EarthLikeMonthType, TickTimeType, TickTimeTypeView};
use crate::sections::{
    find_correct_index_and_day_in_section,
    sections_scanned,
    total_duration,
    total_length,
};

verus! {

/// A calendar position. Every field counts from 0 within the period that
/// encloses it.
pub struct Snapshot {
    pub year: nat,
    pub season: nat,
    pub week: nat,
    pub month: nat,
    pub day: nat,
    pub hour: nat,
    pub minute: nat,
    pub second: nat,
}

/// The calendar position that a clock holds.
#[derive(Clone, Copy, Debug, PartialEq, Eq)]
pub struct TickTimeValue {
    pub year: usize,
    pub season: usize,
    pub month: usize,
    pub week: usize,
    pub day: usize,
    pub hour: usize,
    pub minute: usize,
    pub second: usize,
}

impl View for TickTimeValue {
    type V = Snapshot;

    open spec fn view(&self) -> Snapshot {
        Snapshot {
            year: self.year as nat,
            season: self.season as nat,
            week: self.week as nat,
            month: self.month as nat,
            day: self.day as nat,
            hour: self.hour as nat,
            minute: self.minute as nat,
            second: self.second as nat,
        }
    }
}

impl Default for TickTimeValue {
    /// The position at tick 0: every field is 0.
    fn default() -> (values: Self)
        ensures
            values == (TickTimeValue {
                year: 0,
                season: 0,
                month: 0,
                week: 0,
                day: 0,
                hour: 0,
                minute: 0,
                second: 0,
            }),
    {
        TickTimeValue {
            year: 0,
            season: 0,
            month: 0,
            week: 0,
            day: 0,
            hour: 0,
            minute: 0,
            second: 0,
        }
    }
}

/// Seconds that have passed after `tick` ticks, held at the largest machine
/// word once the product no longer fits.
pub open spec fn elapsed_seconds(tick: nat, seconds_per_tick: nat) -> nat {
    if tick * seconds_per_tick <= usize::MAX {
        tick * seconds_per_tick
    } else {
        usize::MAX as nat
    }
}

/// A date together with the time of day that `total_seconds` stands for, in
/// days of `hours_in_a_day` hours.
pub open spec fn at_time_of_day(
    date: CalendarDate,
    total_seconds: nat,
    hours_in_a_day: nat,
) -> Snapshot {
    Snapshot {
        year: date.year,
        season: date.season,
        week: date.week,
        month: date.month,
        day: date.day,
        hour: (total_seconds / 3600) % hours_in_a_day,
        minute: (total_seconds / 60) % 60,
        second: total_seconds % 60,
    }
}

/// The time of day loses nothing: whole days, hour, minute and second put
/// together again give the seconds back.
pub proof fn lemma_time_of_day_adds_up(total_seconds: nat, hours_in_a_day: nat)
    requires
        hours_in_a_day > 0,
    ensures
        (((total_seconds / (3600 * hours_in_a_day)) * hours_in_a_day + (total_seconds / 3600)
            % hours_in_a_day) * 60 + (total_seconds / 60) % 60) * 60 + total_seconds % 60
            == total_seconds,
{
    let hours_passed = total_seconds / 3600;
    lemma_div_denominator(total_seconds as int, 3600, hours_in_a_day as int);
    assert((hours_passed / hours_in_a_day) * hours_in_a_day + hours_passed % hours_in_a_day
        == hours_passed) by (nonlinear_arith)
        requires
            hours_in_a_day > 0,
    ;
}

impl TickTimeTypeView {
    /// The date of day number `total_days` in this calendar.
    pub open spec fn date_of_day(self, total_days: nat) -> CalendarDate {
        match self {
            TickTimeTypeView::EarthLike {
                month_type: EarthLikeMonthType::Lunar,
                ..
            } => lunar_date(total_days),
            TickTimeTypeView::EarthLike { month_type: EarthLikeMonthType::Real, .. } => real_date(
                total_days,
            ),
            TickTimeTypeView::Custom {
                months_durations,
                seasons_durations,
                week_duration,
                ..
            } => custom_date(total_days, months_durations, seasons_durations, week_duration),
        }
    }

    /// The calendar position after `tick` ticks. It depends on nothing but
    /// the tick count and the configuration.
    pub open spec fn calendar_at(self, tick: nat) -> Snapshot {
        let total_seconds = elapsed_seconds(tick, self.seconds_per_tick());
        let total_days = total_seconds / (3600 * self.hours_in_a_day());
        at_time_of_day(self.date_of_day(total_days), total_seconds, self.hours_in_a_day())
    }

    /// Number of months in a year.
    pub open spec fn months_in_a_year(self) -> nat {
        match self {
            TickTimeTypeView::EarthLike { .. } => 12,
            TickTimeTypeView::Custom { months_durations, .. } => months_durations.len(),
        }
    }

    /// Number of days that month `month` of year `year` has.
    pub open spec fn days_in_month(self, year: nat, month: nat) -> nat {
        match self {
            TickTimeTypeView::EarthLike { month_type: EarthLikeMonthType::Lunar, .. } => 30,
            TickTimeTypeView::EarthLike {
                month_type: EarthLikeMonthType::Real,
                ..
            } => real_month_lengths(is_leap_year(year))[month as int] as nat,
            TickTimeTypeView::Custom {
                months_durations,
                ..
            } => months_durations[month as int] as nat,
        }
    }

    /// Every field of a calendar position stays inside the period it counts
    /// in: seconds and minutes below 60, the hour below the hours of a day,
    /// the month one that the year has, the day one that this month has, the
    /// season one of four. This holds wherever a day has an hour and a year
    /// has a day.
    pub proof fn lemma_calendar_in_range(self, tick: nat)
        requires
            self.hours_in_a_day() > 0,
            self matches TickTimeTypeView::Custom { months_durations, .. } ==> total_length(
                months_durations,
            ) > 0,
        ensures
            self.calendar_at(tick).second < 60,
            self.calendar_at(tick).minute < 60,
            self.calendar_at(tick).hour < self.hours_in_a_day(),
            self.calendar_at(tick).month < self.months_in_a_year(),
            self.calendar_at(tick).day < self.days_in_month(
                self.calendar_at(tick).year,
                self.calendar_at(tick).month,
            ),
            self.calendar_at(tick).season < 4,
    {
        let total_seconds = elapsed_seconds(tick, self.seconds_per_tick());
        let hours = self.hours_in_a_day();
        let total_days = total_seconds / (3600 * hours);
        assert((total_seconds / 3600) % hours < hours) by (nonlinear_arith)
            requires
                hours > 0,
        ;
        match self {
            TickTimeTypeView::EarthLike { month_type: EarthLikeMonthType::Lunar, .. } => {
                lemma_lunar_date_in_range(total_days);
            },
            TickTimeTypeView::EarthLike { month_type: EarthLikeMonthType::Real, .. } => {
                lemma_real_date_in_range(total_days);
            },
            TickTimeTypeView::Custom {
                months_durations,
                seasons_durations,
                week_duration,
                ..
            } => {
                lemma_custom_date_in_range(
                    total_days,
                    months_durations,
                    seasons_durations,
                    week_duration,
                );
            },
        }
    }

    /// Year, week, day and hour never exceed the seconds that have passed,
    /// and those are counted in a machine word: no field outgrows one.
    pub proof fn lemma_calendar_fits_machine_words(self, tick: nat)
        requires
            self.has_positive_lengths(),
        ensures
            self.calendar_at(tick).year <= elapsed_seconds(tick, self.seconds_per_tick()),
            self.calendar_at(tick).week <= elapsed_seconds(tick, self.seconds_per_tick()),
            self.calendar_at(tick).day <= elapsed_seconds(tick, self.seconds_per_tick()),
            self.calendar_at(tick).hour <= elapsed_seconds(tick, self.seconds_per_tick()),
            elapsed_seconds(tick, self.seconds_per_tick()) <= usize::MAX,
    {
        let total_seconds = elapsed_seconds(tick, self.seconds_per_tick());
        let hours = self.hours_in_a_day();
        let total_days = total_seconds / (3600 * hours);
        assert(total_days <= total_seconds) by (nonlinear_arith)
            requires
                hours > 0,
                total_days == total_seconds / (3600 * hours),
        ;
        assert((total_seconds / 3600) % hours <= total_seconds) by (nonlinear_arith)
            requires
                hours > 0,
        ;
        match self {
            TickTimeTypeView::EarthLike { month_type: EarthLikeMonthType::Lunar, .. } => {
                lemma_lunar_date_fits(total_days);
            },
            TickTimeTypeView::EarthLike { month_type: EarthLikeMonthType::Real, .. } => {
                lemma_real_date_fits(total_days);
            },
            TickTimeTypeView::Custom {
                months_durations,
                seasons_durations,
                week_duration,
                ..
            } => {
                lemma_custom_date_fits(
                    total_days,
                    months_durations,
                    seasons_durations,
                    week_duration,
                );
            },
        }
    }
}

impl TickTimeType {
    /// A configuration held in memory has no more months than a machine word
    /// can count.
    pub proof fn lemma_months_can_be_counted(&self)
        ensures
            self@.months_in_a_year() <= usize::MAX,
    {
        match self {
            TickTimeType::EarthLike { .. } => {},
            TickTimeType::Custom { months_durations, .. } => {
                assert(months_durations@.len() == months_durations.len());
            },
        }
    }
}

/// Seconds that have passed after `current_tick` ticks.
fn count_seconds(current_tick: usize, seconds_per_tick: usize) -> (total_seconds: usize)
    ensures
        total_seconds == elapsed_seconds(current_tick as nat, seconds_per_tick as nat),
{
    match current_tick.checked_mul(seconds_per_tick) {
        Some(total_seconds) => total_seconds,
        None => usize::MAX,
    }
}

/// The calendar position after `current_tick` ticks in an Earth-like
/// calendar.
pub fn compute_earthlike_time(
    current_tick: usize,
    seconds_per_tick: usize,
    month_type: &EarthLikeMonthType,
) -> (values: TickTimeValue)
    ensures
        values@ == (TickTimeTypeView::EarthLike {
            seconds_per_tick: seconds_per_tick as nat,
            month_type: *month_type,
        }).calendar_at(current_tick as nat),
{
    let total_seconds: usize = count_seconds(current_tick, seconds_per_tick);
    let second: usize = total_seconds % 60;
    let minute: usize = (total_seconds / 60) % 60;
    let hour: usize = (total_seconds / 3600) % 24;
    let total_days: usize = total_seconds / 86400;
    let (day, week, month, season, year) = match month_type {
        EarthLikeMonthType::Lunar => compute_lunar_calendar_value(total_days),
        EarthLikeMonthType::Real => compute_real_calendar_value(total_days),
    };
    TickTimeValue { year, season, month, week, day, hour, minute, second }
}

/// The calendar position after `current_tick` ticks in a custom calendar.
pub fn compute_custom_date_time_values(
    current_tick: usize,
    seconds_per_tick: usize,
    hours_in_a_day: usize,
    months_durations: &Vec<usize>,
    seasons_durations: &Vec<usize>,
    week_duration: usize,
) -> (values: TickTimeValue)
    requires
        hours_in_a_day > 0,
        week_duration > 0,
        total_length(months_durations@) > 0,
    ensures
        values@ == (TickTimeTypeView::Custom {
            seconds_per_tick: seconds_per_tick as nat,
            hours_in_a_day: hours_in_a_day as nat,
            months_durations: months_durations@,
            seasons_durations: seasons_durations@,
            week_duration: week_duration as nat,
        }).calendar_at(current_tick as nat),
{
    let total_seconds: usize = count_seconds(current_tick, seconds_per_tick);
    let second: usize = total_seconds % 60;
    let minute: usize = (total_seconds / 60) % 60;
    let hour: usize = (total_seconds / 3600) % hours_in_a_day;
    let total_days: usize = total_seconds / 3600 / hours_in_a_day;
    proof {
        lemma_div_denominator(total_seconds as int, 3600, hours_in_a_day as int);
    }
    let year_duration: u128 = total_duration(months_durations);
    assert(total_days as int % year_duration as int <= total_days && total_days as int
        / year_duration as int <= total_days) by (nonlinear_arith)
        requires
            year_duration > 0,
    ;
    let (day, week, month, season, year) = {
        let day: usize = (total_days as u128 % year_duration) as usize;
        let current_year: usize = (total_days as u128 / year_duration) as usize;
        assert(sections_scanned(months_durations@, months_durations.len() as nat)
            == months_durations@);
        assert(sections_scanned(seasons_durations@, seasons_durations.len() as nat)
            == seasons_durations@);

        let (month, day_of_month) = find_correct_index_and_day_in_section(
            day,
            months_durations.len(),
            months_durations,
        );

        let (season, _) = find_correct_index_and_day_in_section(
            day,
            seasons_durations.len(),
            seasons_durations,
        );

        (day_of_month, day / week_duration, month, season % 4, current_year)
    };
    TickTimeValue { year, season, month, week, day, hour, minute, second }
}

/// The calendar position after `current_tick` ticks in the given calendar.
pub fn apply_current_tick(current_tick: usize, tick_time_type: &TickTimeType) -> (values:
    TickTimeValue)
    requires
        tick_time_type@.has_positive_lengths(),
    ensures
        values@ == tick_time_type@.calendar_at(current_tick as nat),
{
    match tick_time_type {
        TickTimeType::EarthLike { seconds_per_tick, month_type } => compute_earthlike_time(
            current_tick,
            *seconds_per_tick,
            month_type,
        ),
        TickTimeType::Custom {
            seconds_per_tick,
            hours_in_a_day,
            months_durations,
            seasons_durations,
            week_duration,
        } => compute_custom_date_time_values(
            current_tick,
            *seconds_per_tick,
            *hours_in_a_day,
            months_durations,
            seasons_durations,
            *week_duration,
        ),
    }
}

} // verus!
