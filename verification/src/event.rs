//! What a tick changed.
//!
//! The fields of a calendar position are ranked year, month, day, hour,
//! minute, second. A field is reported when its value changed, and also when
//! a field ranked above it is reported: once the month turns, the day, the
//! hour, the minute and the second are all reported, whether or not their
//! values differ. Season and week stand beside this ranking. Each of them is
//! reported when its own value changed or when the year changed, and reporting
//! one of them makes no other field reported.

use vstd::prelude::*;
use crate::snapshot::TickTimeValue;

verus! {

/// The value of one field before and after a tick.
#[derive(Clone, Copy, Debug, PartialEq, Eq)]
pub struct TicketTimeEventValue {
    /// The value before the tick.
    pub old_value: usize,
    /// The value after the tick.
    pub new_value: usize,
}

/// The fields that a tick reports, each with its value before and after.
/// A field that is not reported is `None`.
#[derive(Clone, Copy, Debug, PartialEq, Eq)]
pub struct TickTimeEvent {
    /// The second. Old and new value are equal when a tick is a whole number of minutes.
    pub second_update: Option<TicketTimeEventValue>,
    /// The minute. Old and new value are equal when a tick is a whole number of hours.
    pub minute_update: Option<TicketTimeEventValue>,
    /// The hour. Old and new value are equal when a tick is a whole number of days.
    pub hour_update: Option<TicketTimeEventValue>,
    /// The day of the month. Old and new value can be equal when the month or the year turns.
    pub day_update: Option<TicketTimeEventValue>,
    /// The week of the year. Old and new value can be equal when the year turns.
    pub week_update: Option<TicketTimeEventValue>,
    /// The month. Old and new value can be equal when the year turns.
    pub month_update: Option<TicketTimeEventValue>,
    /// The season. Old and new value can be equal when the year turns.
    pub season_update: Option<TicketTimeEventValue>,
    /// The year.
    pub year_update: Option<TicketTimeEventValue>,
}

impl Default for TickTimeEvent {
    /// The event that reports nothing.
    fn default() -> (event: Self)
        ensures
            event == nothing_reported(),
    {
        TickTimeEvent {
            second_update: None,
            minute_update: None,
            hour_update: None,
            day_update: None,
            week_update: None,
            month_update: None,
            season_update: None,
            year_update: None,
        }
    }
}

/// The event that reports nothing.
pub open spec fn nothing_reported() -> TickTimeEvent {
    TickTimeEvent {
        second_update: None,
        minute_update: None,
        hour_update: None,
        day_update: None,
        week_update: None,
        month_update: None,
        season_update: None,
        year_update: None,
    }
}

/// The entry of one field: its two values if the field is reported.
pub open spec fn field_update(reported: bool, old_value: usize, new_value: usize) -> Option<
    TicketTimeEventValue,
> {
    if reported {
        Some(TicketTimeEventValue { old_value, new_value })
    } else {
        None
    }
}

/// The event of a tick that took the calendar from `before` to `after`.
pub open spec fn event_between(before: TickTimeValue, after: TickTimeValue) -> TickTimeEvent {
    let year = before.year != after.year;
    let month = year || before.month != after.month;
    let day = month || before.day != after.day;
    let hour = day || before.hour != after.hour;
    let minute = hour || before.minute != after.minute;
    let second = minute || before.second != after.second;
    TickTimeEvent {
        second_update: field_update(second, before.second, after.second),
        minute_update: field_update(minute, before.minute, after.minute),
        hour_update: field_update(hour, before.hour, after.hour),
        day_update: field_update(day, before.day, after.day),
        week_update: field_update(year || before.week != after.week, before.week, after.week),
        month_update: field_update(month, before.month, after.month),
        season_update: field_update(
            year || before.season != after.season,
            before.season,
            after.season,
        ),
        year_update: field_update(year, before.year, after.year),
    }
}

/// Every field whose value changed is reported, with its value before and
/// its value after.
pub proof fn lemma_every_change_is_reported(before: TickTimeValue, after: TickTimeValue)
    ensures
        before.year != after.year ==> event_between(before, after).year_update == Some(
            TicketTimeEventValue { old_value: before.year, new_value: after.year },
        ),
        before.season != after.season ==> event_between(before, after).season_update == Some(
            TicketTimeEventValue { old_value: before.season, new_value: after.season },
        ),
        before.week != after.week ==> event_between(before, after).week_update == Some(
            TicketTimeEventValue { old_value: before.week, new_value: after.week },
        ),
        before.month != after.month ==> event_between(before, after).month_update == Some(
            TicketTimeEventValue { old_value: before.month, new_value: after.month },
        ),
        before.day != after.day ==> event_between(before, after).day_update == Some(
            TicketTimeEventValue { old_value: before.day, new_value: after.day },
        ),
        before.hour != after.hour ==> event_between(before, after).hour_update == Some(
            TicketTimeEventValue { old_value: before.hour, new_value: after.hour },
        ),
        before.minute != after.minute ==> event_between(before, after).minute_update == Some(
            TicketTimeEventValue { old_value: before.minute, new_value: after.minute },
        ),
        before.second != after.second ==> event_between(before, after).second_update == Some(
            TicketTimeEventValue { old_value: before.second, new_value: after.second },
        ),
{
}

/// A reported field brings along every field ranked below it, and a change
/// of year brings along season and week as well. What an entry holds is
/// always the field's value before and after, equal or not.
pub proof fn lemma_reports_cascade(before: TickTimeValue, after: TickTimeValue)
    ensures
        event_between(before, after).year_update is Some ==> {
            &&& event_between(before, after).season_update == Some(
                TicketTimeEventValue { old_value: before.season, new_value: after.season },
            )
            &&& event_between(before, after).week_update == Some(
                TicketTimeEventValue { old_value: before.week, new_value: after.week },
            )
            &&& event_between(before, after).month_update == Some(
                TicketTimeEventValue { old_value: before.month, new_value: after.month },
            )
        },
        event_between(before, after).month_update is Some ==> event_between(
            before,
            after,
        ).day_update == Some(TicketTimeEventValue { old_value: before.day, new_value: after.day }),
        event_between(before, after).day_update is Some ==> event_between(
            before,
            after,
        ).hour_update == Some(
            TicketTimeEventValue { old_value: before.hour, new_value: after.hour },
        ),
        event_between(before, after).hour_update is Some ==> event_between(
            before,
            after,
        ).minute_update == Some(
            TicketTimeEventValue { old_value: before.minute, new_value: after.minute },
        ),
        event_between(before, after).minute_update is Some ==> event_between(
            before,
            after,
        ).second_update == Some(
            TicketTimeEventValue { old_value: before.second, new_value: after.second },
        ),
{
}

/// A field is reported for a reason only: its own value changed, or a field
/// that brings it along is reported. A tick that changed nothing reports
/// nothing.
pub proof fn lemma_reports_have_a_cause(before: TickTimeValue, after: TickTimeValue)
    ensures
        event_between(before, after).year_update is Some ==> before.year != after.year,
        event_between(before, after).season_update is Some ==> before.season != after.season
            || event_between(before, after).year_update is Some,
        event_between(before, after).week_update is Some ==> before.week != after.week
            || event_between(before, after).year_update is Some,
        event_between(before, after).month_update is Some ==> before.month != after.month
            || event_between(before, after).year_update is Some,
        event_between(before, after).day_update is Some ==> before.day != after.day
            || event_between(before, after).month_update is Some,
        event_between(before, after).hour_update is Some ==> before.hour != after.hour
            || event_between(before, after).day_update is Some,
        event_between(before, after).minute_update is Some ==> before.minute != after.minute
            || event_between(before, after).hour_update is Some,
        event_between(before, after).second_update is Some ==> before.second != after.second
            || event_between(before, after).minute_update is Some,
        before == after ==> event_between(before, after) == nothing_reported(),
{
}

/// Compares the calendar position before a tick with the one after it.
pub fn compute_event(old_values: &TickTimeValue, values: &TickTimeValue) -> (event: TickTimeEvent)
    ensures
        event == event_between(*old_values, *values),
{
    let mut event = TickTimeEvent::default();
    let mut update_level: usize = 0;

    if old_values.year != values.year {
        update_level += 1;
        event.year_update = Some(
            TicketTimeEventValue { old_value: old_values.year, new_value: values.year },
        );
    }
    if update_level > 0 || old_values.season != values.season {
        event.season_update = Some(
            TicketTimeEventValue { old_value: old_values.season, new_value: values.season },
        );
    }
    if update_level > 0 || old_values.week != values.week {
        event.week_update = Some(
            TicketTimeEventValue { old_value: old_values.week, new_value: values.week },
        );
    }
    if update_level > 0 || old_values.month != values.month {
        update_level += 1;
        event.month_update = Some(
            TicketTimeEventValue { old_value: old_values.month, new_value: values.month },
        );
    }
    if update_level > 0 || old_values.day != values.day {
        update_level += 1;
        event.day_update = Some(
            TicketTimeEventValue { old_value: old_values.day, new_value: values.day },
        );
    }
    if update_level > 0 || old_values.hour != values.hour {
        update_level += 1;
        event.hour_update = Some(
            TicketTimeEventValue { old_value: old_values.hour, new_value: values.hour },
        );
    }
    if update_level > 0 || old_values.minute != values.minute {
        update_level += 1;
        event.minute_update = Some(
            TicketTimeEventValue { old_value: old_values.minute, new_value: values.minute },
        );
    }
    if update_level > 0 || old_values.second != values.second {
        event.second_update = Some(
            TicketTimeEventValue { old_value: old_values.second, new_value: values.second },
        );
    }
    event
}

} // verus!
