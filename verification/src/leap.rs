//! Placing a day count in a calendar with one leap year in every four.
//!
//! Years are numbered from 0 and every year divisible by four has 366 days,
//! with no exception for centuries. Four years therefore always make 1461
//! days, and the leap year opens each block of four.

use vstd::prelude::*;

verus! {

/// Days in a block of four consecutive years, one of them a leap year.
pub const DAYS_IN_FOUR_YEARS: usize = 1461;

/// Whether `year` has 366 days.
pub open spec fn is_leap_year(year: nat) -> bool {
    year % 4 == 0
}

/// Number of days in `year`.
pub open spec fn days_in_year(year: nat) -> nat {
    if is_leap_year(year) {
        366
    } else {
        365
    }
}

/// Number of days in all the years before `year`.
pub open spec fn days_before_year(year: nat) -> nat {
    365 * year + (year + 3) / 4
}

/// The year that day number `total_days` (counted from day 0 of year 0) falls in.
pub open spec fn year_of_day(total_days: nat) -> nat {
    let in_block = total_days % 1461;
    let block_start = (total_days / 1461) * 4;
    if in_block <= 365 {
        block_start
    } else if in_block <= 730 {
        block_start + 1
    } else if in_block <= 1095 {
        block_start + 2
    } else {
        block_start + 3
    }
}

/// The position of day number `total_days` within its year, from 0.
pub open spec fn day_of_year(total_days: nat) -> nat {
    let in_block = total_days % 1461;
    if in_block <= 365 {
        in_block
    } else if in_block <= 730 {
        (in_block - 366) as nat
    } else if in_block <= 1095 {
        (in_block - 731) as nat
    } else {
        (in_block - 1096) as nat
    }
}

/// A day number is the days of the years before its year plus its position
/// in that year, and the position is a day that the year has.
pub proof fn lemma_day_splits_into_year_and_day(total_days: nat)
    ensures
        days_before_year(year_of_day(total_days)) + day_of_year(total_days) == total_days,
        day_of_year(total_days) < days_in_year(year_of_day(total_days)),
{
}

/// Only one year and one day of that year add up to a given day number.
pub proof fn lemma_year_and_day_unique(total_days: nat, year: nat, day: nat)
    requires
        days_before_year(year) + day == total_days,
        day < days_in_year(year),
    ensures
        year == year_of_day(total_days),
        day == day_of_year(total_days),
{
    lemma_day_splits_into_year_and_day(total_days);
}

/// Splits a day count into the day of the year, the year, and whether that
/// year is a leap year.
pub fn normalize_total_day_to_year_information(total_days: usize) -> (info: (usize, usize, bool))
    ensures
        info.0 == day_of_year(total_days as nat),
        info.1 == year_of_day(total_days as nat),
        info.2 == is_leap_year(info.1 as nat),
        days_before_year(info.1 as nat) + info.0 == total_days,
        info.0 < days_in_year(info.1 as nat),
{
    let base_4_year_days: usize = total_days % DAYS_IN_FOUR_YEARS;
    let base_4_year_start: usize = (total_days / DAYS_IN_FOUR_YEARS) * 4;
    match base_4_year_days {
        0..=365 => (base_4_year_days, base_4_year_start, true),
        366..=730 => (base_4_year_days - 366, base_4_year_start + 1, false),
        731..=1095 => (base_4_year_days - 731, base_4_year_start + 2, false),
        _ => (base_4_year_days - 1096, base_4_year_start + 3, false),
    }
}

} // verus!
