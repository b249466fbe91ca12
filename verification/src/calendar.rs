//! The date part of a calendar position: which year, season, week, month and
//! day of the month a given day count stands for, in each kind of calendar.

use vstd::prelude::*;
use crate::leap::{
    day_of_year,
    days_before_year,
    is_leap_year,
    lemma_day_splits_into_year_and_day,
    normalize_total_day_to_year_information,
    year_of_day,
};
use crate::sections::{
    find_correct_index_and_day_in_section,
    lemma_section_of_splits,
    length_before,
    section_of,
    sections_scanned,
    total_length,
};

verus! {

/// Days in every month of the lunar calendar.
pub const LUNAR_MONTH_DURATION: usize = 30;

/// Days in a year of the lunar calendar: twelve months.
pub const LUNAR_YEAR_DURATION: usize = LUNAR_MONTH_DURATION * 12;

/// A date. Every field counts from 0: month 0 is the first month of the year,
/// day 0 the first day of the month, and season and week are those of the
/// year.
pub struct CalendarDate {
    pub year: nat,
    pub season: nat,
    pub week: nat,
    pub month: nat,
    pub day: nat,
}

/// Reads a date out of the tuple `(day, week, month, season, year)`.
pub open spec fn date_of_tuple(fields: (usize, usize, usize, usize, usize)) -> CalendarDate {
    CalendarDate {
        year: fields.4 as nat,
        season: fields.3 as nat,
        week: fields.1 as nat,
        month: fields.2 as nat,
        day: fields.0 as nat,
    }
}

/// The date of day number `total_days` in the lunar calendar: years of twelve
/// months of 30 days, four seasons of 90 days, weeks of 7 days that start
/// over with each year.
pub open spec fn lunar_date(total_days: nat) -> CalendarDate {
    let day_in_year = total_days % 360;
    CalendarDate {
        year: total_days / 360,
        season: day_in_year / 90,
        week: day_in_year / 7,
        month: day_in_year / 30,
        day: day_in_year % 30,
    }
}

/// Month lengths of the real calendar, January first.
pub open spec fn real_month_lengths(leap: bool) -> Seq<usize> {
    seq![31, if leap { 29 } else { 28 }, 31, 30, 31, 30, 31, 31, 30, 31, 30, 31]
}

/// Season lengths of the real calendar, counted from the first day of the
/// year. The first season ends with the 80th day of a common year and is one
/// day longer in a leap year. The four lengths stop ten days short of the end
/// of the year: those last days lie past the fourth season and belong to the
/// first one again.
pub open spec fn real_season_lengths(leap: bool) -> Seq<usize> {
    seq![if leap { 81 } else { 80 }, 92, 92, 91]
}

/// The date of day number `total_days` in the real calendar: months of the
/// usual lengths, a leap year every fourth year starting with year 0, and
/// weeks of 7 days that start over with each year. A day past the fourth
/// season counts as a day of the first.
pub open spec fn real_date(total_days: nat) -> CalendarDate {
    let year = year_of_day(total_days);
    let day_in_year = day_of_year(total_days);
    let leap = is_leap_year(year);
    let in_month = section_of(day_in_year, real_month_lengths(leap));
    CalendarDate {
        year,
        season: section_of(day_in_year, real_season_lengths(leap)).index % 4,
        week: day_in_year / 7,
        month: in_month.index,
        day: in_month.offset,
    }
}

/// The date of day number `total_days` in a calendar given by its month
/// lengths, its season lengths and the length of its week. A year is as long
/// as its months together.
pub open spec fn custom_date(
    total_days: nat,
    months: Seq<usize>,
    seasons: Seq<usize>,
    week_duration: nat,
) -> CalendarDate {
    let year_length = total_length(months);
    let day_in_year = total_days % year_length;
    let in_month = section_of(day_in_year, months);
    CalendarDate {
        year: total_days / year_length,
        season: section_of(day_in_year, seasons).index % 4,
        week: day_in_year / week_duration,
        month: in_month.index,
        day: in_month.offset,
    }
}

/// The twelve months of the real calendar fill the year exactly.
pub proof fn lemma_real_months_fill_the_year(leap: bool)
    ensures
        real_month_lengths(leap).len() == 12,
        total_length(real_month_lengths(leap)) == if leap { 366nat } else { 365nat },
{
    reveal_with_fuel(length_before, 13);
}

/// A lunar date names one of twelve months, one of its 30 days and one of
/// four seasons.
pub proof fn lemma_lunar_date_in_range(total_days: nat)
    ensures
        lunar_date(total_days).month < 12,
        lunar_date(total_days).day < 30,
        lunar_date(total_days).season < 4,
        lunar_date(total_days).week < 52,
{
}

/// A real date names one of twelve months, a day that this month has in this
/// year, and one of four seasons.
pub proof fn lemma_real_date_in_range(total_days: nat)
    ensures
        real_date(total_days).month < 12,
        real_date(total_days).day < real_month_lengths(
            is_leap_year(real_date(total_days).year),
        )[real_date(total_days).month as int],
        real_date(total_days).season < 4,
        real_date(total_days).week < 53,
{
    let leap = is_leap_year(year_of_day(total_days));
    lemma_day_splits_into_year_and_day(total_days);
    lemma_real_months_fill_the_year(leap);
    lemma_section_of_splits(day_of_year(total_days), real_month_lengths(leap));
}

/// In a calendar whose year has at least one day, a date names one of the
/// months, a day that this month has, and one of four seasons.
pub proof fn lemma_custom_date_in_range(
    total_days: nat,
    months: Seq<usize>,
    seasons: Seq<usize>,
    week_duration: nat,
)
    requires
        total_length(months) > 0,
    ensures
        custom_date(total_days, months, seasons, week_duration).month < months.len(),
        custom_date(total_days, months, seasons, week_duration).day < months[custom_date(
            total_days,
            months,
            seasons,
            week_duration,
        ).month as int],
        custom_date(total_days, months, seasons, week_duration).season < 4,
{
    let year_length = total_length(months);
    let day_in_year = total_days % year_length;
    assert(day_in_year < year_length) by (nonlinear_arith)
        requires
            year_length > 0,
            day_in_year == total_days % year_length,
    ;
    lemma_section_of_splits(day_in_year, months);
}

/// Year, week and day of a lunar date never exceed the day count.
pub proof fn lemma_lunar_date_fits(total_days: nat)
    ensures
        lunar_date(total_days).year <= total_days,
        lunar_date(total_days).week <= total_days,
        lunar_date(total_days).day <= total_days,
{
}

/// Year, week and day of a real date never exceed the day count.
pub proof fn lemma_real_date_fits(total_days: nat)
    ensures
        real_date(total_days).year <= total_days,
        real_date(total_days).week <= total_days,
        real_date(total_days).day <= total_days,
{
    lemma_day_splits_into_year_and_day(total_days);
    lemma_section_of_splits(
        day_of_year(total_days),
        real_month_lengths(is_leap_year(year_of_day(total_days))),
    );
}

/// Year, week and day of a custom date never exceed the day count, where
/// year and week have at least one day.
pub proof fn lemma_custom_date_fits(
    total_days: nat,
    months: Seq<usize>,
    seasons: Seq<usize>,
    week_duration: nat,
)
    requires
        total_length(months) > 0,
        week_duration > 0,
    ensures
        custom_date(total_days, months, seasons, week_duration).year <= total_days,
        custom_date(total_days, months, seasons, week_duration).week <= total_days,
        custom_date(total_days, months, seasons, week_duration).day <= total_days,
{
    let year_length = total_length(months);
    let day_in_year = total_days % year_length;
    assert(day_in_year <= total_days && total_days / year_length <= total_days && day_in_year
        / week_duration <= day_in_year) by (nonlinear_arith)
        requires
            year_length > 0,
            week_duration > 0,
            day_in_year == total_days % year_length,
    ;
    lemma_section_of_splits(day_in_year, months);
}

/// A lunar date names its day: the days of the years and months before it,
/// and the day of the month, add up to the day count.
pub proof fn lemma_lunar_date_names_the_day(total_days: nat)
    ensures
        lunar_date(total_days).year * 360 + lunar_date(total_days).month * 30 + lunar_date(
            total_days,
        ).day == total_days,
{
}

/// A real date names its day: the days of the years before its year, the
/// days of the months before its month, and the day of the month, add up to
/// the day count.
pub proof fn lemma_real_date_names_the_day(total_days: nat)
    ensures
        days_before_year(real_date(total_days).year) + length_before(
            real_month_lengths(is_leap_year(real_date(total_days).year)),
            real_date(total_days).month,
        ) + real_date(total_days).day == total_days,
{
    lemma_day_splits_into_year_and_day(total_days);
    lemma_section_of_splits(
        day_of_year(total_days),
        real_month_lengths(is_leap_year(year_of_day(total_days))),
    );
}

/// A custom date names its day: the days of the years before its year, the
/// days of the months before its month, and the day of the month, add up to
/// the day count.
pub proof fn lemma_custom_date_names_the_day(
    total_days: nat,
    months: Seq<usize>,
    seasons: Seq<usize>,
    week_duration: nat,
)
    requires
        total_length(months) > 0,
    ensures
        custom_date(total_days, months, seasons, week_duration).year * total_length(months)
            + length_before(months, custom_date(total_days, months, seasons, week_duration).month)
            + custom_date(total_days, months, seasons, week_duration).day == total_days,
{
    let year_length = total_length(months);
    assert((total_days / year_length) * year_length + total_days % year_length == total_days)
        by (nonlinear_arith)
        requires
            year_length > 0,
    ;
    lemma_section_of_splits(total_days % year_length, months);
}

/// Month lengths of the real calendar for a leap or a common year.
pub fn get_month_duration(is_leap_year: bool) -> (durations: Vec<usize>)
    ensures
        durations@ == real_month_lengths(is_leap_year),
{
    vec![31, if is_leap_year { 29 } else { 28 }, 31, 30, 31, 30, 31, 31, 30, 31, 30, 31]
}

/// Season lengths of the real calendar for a leap or a common year.
pub fn get_season_duration(is_leap_year: bool) -> (durations: Vec<usize>)
    ensures
        durations@ == real_season_lengths(is_leap_year),
{
    vec![if is_leap_year { 81 } else { 80 }, 92, 92, 91]
}

/// Date of a day count in the real calendar, as `(day, week, month, season, year)`.
pub fn compute_real_calendar_value(total_days: usize) -> (date: (usize, usize, usize, usize, usize))
    ensures
        date_of_tuple(date) == real_date(total_days as nat),
{
    let (day, current_year, is_leap_year) = normalize_total_day_to_year_information(total_days);
    let months = get_month_duration(is_leap_year);
    let seasons = get_season_duration(is_leap_year);
    assert(sections_scanned(months@, 12) == months@);
    assert(sections_scanned(seasons@, 4) == seasons@);

    let (month, day_of_month) = find_correct_index_and_day_in_section(day, 12, &months);

    let (season, _) = find_correct_index_and_day_in_section(day, 4, &seasons);

    (day_of_month, day / 7, month, season % 4, current_year)
}

/// Date of a day count in the lunar calendar, as `(day, week, month, season, year)`.
pub fn compute_lunar_calendar_value(total_days: usize) -> (date: (
    usize,
    usize,
    usize,
    usize,
    usize,
))
    ensures
        date_of_tuple(date) == lunar_date(total_days as nat),
{
    (
        total_days % LUNAR_YEAR_DURATION % LUNAR_MONTH_DURATION,
        total_days % LUNAR_YEAR_DURATION / 7,
        total_days % LUNAR_YEAR_DURATION / LUNAR_MONTH_DURATION,
        (total_days % LUNAR_YEAR_DURATION) / (LUNAR_YEAR_DURATION / 4),
        total_days / LUNAR_YEAR_DURATION,
    )
}

} // verus!
