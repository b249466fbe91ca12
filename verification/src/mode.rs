//! How time is structured: the kinds of calendar, their parameters, and the
//! rules a configuration must meet before a clock is built on it.

use vstd::prelude::*;
use crate::sections::{total_duration, total_length};

verus! {

/// Months of an Earth-like calendar.
#[derive(Clone, Copy, Debug)]
pub enum EarthLikeMonthType {
    /// Every month has 30 days.
    Lunar,
    /// Months have their usual lengths, and every fourth year is a leap year.
    Real,
}

/// The way ticks are turned into a date and a time of day. An hour always has
/// 60 minutes and a minute 60 seconds.
#[derive(Debug)]
pub enum TickTimeType {
    /// Twelve months, 24 hours a day.
    EarthLike {
        /// Seconds that one tick stands for: at least 1.
        seconds_per_tick: usize,
        /// Which lengths the months have.
        month_type: EarthLikeMonthType,
    },
    /// A calendar of the caller's making. The months together and the seasons
    /// together must cover the same number of days.
    Custom {
        /// Seconds that one tick stands for: at least 1.
        seconds_per_tick: usize,
        /// Hours in a day.
        hours_in_a_day: usize,
        /// Length of each month in days, in order.
        months_durations: Vec<usize>,
        /// Length of each season in days, in order.
        seasons_durations: Vec<usize>,
        /// Days in a week.
        week_duration: usize,
    },
}

/// What a clock is built with.
#[derive(Debug)]
pub struct TickTimeOptions {
    /// The calendar to compute with.
    pub tick_time_type: TickTimeType,
    /// Whether each tick reports the fields it changed.
    pub compute_events: bool,
}

/// A calendar configuration as mathematics: what `TickTimeType` stands for.
pub enum TickTimeTypeView {
    EarthLike { seconds_per_tick: nat, month_type: EarthLikeMonthType },
    Custom {
        seconds_per_tick: nat,
        hours_in_a_day: nat,
        months_durations: Seq<usize>,
        seasons_durations: Seq<usize>,
        week_duration: nat,
    },
}

/// What `TickTimeOptions` stands for.
pub struct TickTimeOptionsView {
    pub tick_time_type: TickTimeTypeView,
    pub compute_events: bool,
}

impl View for TickTimeType {
    type V = TickTimeTypeView;

    open spec fn view(&self) -> TickTimeTypeView {
        match self {
            TickTimeType::EarthLike {
                seconds_per_tick,
                month_type,
            } => TickTimeTypeView::EarthLike {
                seconds_per_tick: *seconds_per_tick as nat,
                month_type: *month_type,
            },
            TickTimeType::Custom {
                seconds_per_tick,
                hours_in_a_day,
                months_durations,
                seasons_durations,
                week_duration,
            } => TickTimeTypeView::Custom {
                seconds_per_tick: *seconds_per_tick as nat,
                hours_in_a_day: *hours_in_a_day as nat,
                months_durations: months_durations@,
                seasons_durations: seasons_durations@,
                week_duration: *week_duration as nat,
            },
        }
    }
}

impl View for TickTimeOptions {
    type V = TickTimeOptionsView;

    open spec fn view(&self) -> TickTimeOptionsView {
        TickTimeOptionsView {
            tick_time_type: self.tick_time_type@,
            compute_events: self.compute_events,
        }
    }
}

impl Clone for TickTimeType {
    fn clone(&self) -> (copy: Self)
        ensures
            copy@ == self@,
    {
        match self {
            TickTimeType::EarthLike { seconds_per_tick, month_type } => TickTimeType::EarthLike {
                seconds_per_tick: *seconds_per_tick,
                month_type: *month_type,
            },
            TickTimeType::Custom {
                seconds_per_tick,
                hours_in_a_day,
                months_durations,
                seasons_durations,
                week_duration,
            } => TickTimeType::Custom {
                seconds_per_tick: *seconds_per_tick,
                hours_in_a_day: *hours_in_a_day,
                months_durations: months_durations.clone(),
                seasons_durations: seasons_durations.clone(),
                week_duration: *week_duration,
            },
        }
    }
}

impl Clone for TickTimeOptions {
    fn clone(&self) -> (copy: Self)
        ensures
            copy@ == self@,
    {
        TickTimeOptions {
            tick_time_type: self.tick_time_type.clone(),
            compute_events: self.compute_events,
        }
    }
}

impl TickTimeTypeView {
    /// Seconds that one tick stands for.
    pub open spec fn seconds_per_tick(self) -> nat {
        match self {
            TickTimeTypeView::EarthLike { seconds_per_tick, .. } => seconds_per_tick,
            TickTimeTypeView::Custom { seconds_per_tick, .. } => seconds_per_tick,
        }
    }

    /// Hours in a day.
    pub open spec fn hours_in_a_day(self) -> nat {
        match self {
            TickTimeTypeView::EarthLike { .. } => 24,
            TickTimeTypeView::Custom { hours_in_a_day, .. } => hours_in_a_day,
        }
    }

    /// The rules of a usable configuration: a tick lasts at least one second,
    /// and in a custom calendar the months and the seasons add up to the same
    /// number of days.
    pub open spec fn is_valid(self) -> bool {
        match self {
            TickTimeTypeView::EarthLike { seconds_per_tick, .. } => seconds_per_tick >= 1,
            TickTimeTypeView::Custom {
                seconds_per_tick,
                months_durations,
                seasons_durations,
                ..
            } => seconds_per_tick >= 1 && total_length(months_durations) == total_length(
                seasons_durations,
            ),
        }
    }

    /// The reason a configuration is turned down, if it is.
    pub open spec fn rejection(self) -> Option<Seq<char>> {
        match self {
            TickTimeTypeView::EarthLike { seconds_per_tick, .. } => if seconds_per_tick == 0 {
                Some("The minimum value for EarthLike::seconds_per_tick is 1"@)
            } else {
                None
            },
            TickTimeTypeView::Custom {
                seconds_per_tick,
                months_durations,
                seasons_durations,
                ..
            } => if seconds_per_tick == 0 {
                Some("The minimum value for Custom::seconds_per_tick is 1"@)
            } else if total_length(months_durations) != total_length(seasons_durations) {
                Some(
                    "The sum of values of Custom::months_durations and Custom::season_duration should be the same to keep consistent"@,
                )
            } else {
                None
            },
        }
    }

    /// Whether a calendar position can be worked out at all: a day has at
    /// least one hour, a week at least one day and a year at least one day.
    /// The rules of `is_valid` do not ask for this.
    pub open spec fn has_positive_lengths(self) -> bool {
        match self {
            TickTimeTypeView::EarthLike { .. } => true,
            TickTimeTypeView::Custom { hours_in_a_day, months_durations, week_duration, .. } => {
                &&& hours_in_a_day > 0
                &&& week_duration > 0
                &&& total_length(months_durations) > 0
            },
        }
    }

    /// A configuration is turned down exactly when it breaks a rule.
    pub proof fn lemma_rejected_iff_invalid(self)
        ensures
            self.rejection() is None <==> self.is_valid(),
    {
    }
}

impl TickTimeType {
    /// Whether a calendar position can be worked out under this
    /// configuration: see `TickTimeTypeView::has_positive_lengths`.
    pub fn has_positive_lengths(&self) -> (answer: bool)
        ensures
            answer == self@.has_positive_lengths(),
    {
        match self {
            TickTimeType::EarthLike { .. } => true,
            TickTimeType::Custom { hours_in_a_day, months_durations, week_duration, .. } => {
                *hours_in_a_day > 0 && *week_duration > 0 && total_duration(months_durations) > 0
            },
        }
    }
}

/// Checks a configuration against the rules of `TickTimeTypeView::is_valid`
/// and names the first rule that it breaks.
pub fn verify_tick_time_type_values(tick_time_type: &TickTimeType) -> (checked: Result<
    (),
    &'static str,
>)
    ensures
        checked is Ok <==> tick_time_type@.is_valid(),
        checked matches Err(reason) ==> tick_time_type@.rejection() == Some(reason@),
{
    match tick_time_type {
        TickTimeType::EarthLike { seconds_per_tick, .. } => {
            if *seconds_per_tick == 0 {
                return Err("The minimum value for EarthLike::seconds_per_tick is 1");
            }
        },
        TickTimeType::Custom {
            seconds_per_tick,
            hours_in_a_day: _,
            months_durations,
            seasons_durations,
            ..
        } => {
            if *seconds_per_tick == 0 {
                return Err("The minimum value for Custom::seconds_per_tick is 1");
            }
            if total_duration(months_durations) != total_duration(seasons_durations) {
                return Err(
                    "The sum of values of Custom::months_durations and Custom::season_duration should be the same to keep consistent",
                );
            }
        },
    }
    Ok(())
}

} // verus!
