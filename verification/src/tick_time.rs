//! The clock: a tick counter, a calendar configuration, and the calendar
//! position that follows from the two.

use vstd::prelude::*;
use crate::event::{compute_event, event_between, TickTimeEvent};
use crate::mode::{verify_tick_time_type_values, TickTimeOptions, TickTimeOptionsView};
use crate::snapshot::{apply_current_tick, Snapshot, TickTimeValue};

verus! {

/// A clock as far as its behaviour goes: how many ticks it has counted and
/// what it was built with. Its calendar position is a function of the two.
pub struct TickTimeView {
    pub tick: nat,
    pub options: TickTimeOptionsView,
}

impl TickTimeView {
    /// The calendar position of the clock.
    pub open spec fn calendar(self) -> Snapshot {
        self.options.tick_time_type.calendar_at(self.tick)
    }

    /// The calendar position of the clock in machine words. Where the
    /// configuration can be computed with, no field loses anything by this
    /// (`lemma_values_are_exact`).
    pub open spec fn values(self) -> TickTimeValue {
        let calendar = self.calendar();
        TickTimeValue {
            year: calendar.year as usize,
            season: calendar.season as usize,
            month: calendar.month as usize,
            week: calendar.week as usize,
            day: calendar.day as usize,
            hour: calendar.hour as usize,
            minute: calendar.minute as usize,
            second: calendar.second as usize,
        }
    }

    /// The clock one tick later.
    pub open spec fn advance(self) -> TickTimeView {
        TickTimeView { tick: self.tick + 1, options: self.options }
    }

    /// The clock `ticks` ticks later.
    pub open spec fn advance_by(self, ticks: nat) -> TickTimeView
        decreases ticks,
    {
        if ticks == 0 {
            self
        } else {
            self.advance_by((ticks - 1) as nat).advance()
        }
    }

    /// The machine-word position of a clock is its calendar position, field
    /// by field.
    pub proof fn lemma_values_are_exact(self)
        requires
            self.options.tick_time_type.has_positive_lengths(),
            self.options.tick_time_type.months_in_a_year() <= usize::MAX,
        ensures
            self.values()@ == self.calendar(),
    {
        self.options.tick_time_type.lemma_calendar_in_range(self.tick);
        self.options.tick_time_type.lemma_calendar_fits_machine_words(self.tick);
    }

    /// Two clocks that have counted the same ticks under the same calendar
    /// show the same position, whatever else differs between them and however
    /// they came to their count.
    pub proof fn lemma_position_depends_on_tick_and_calendar(self, other: TickTimeView)
        requires
            self.tick == other.tick,
            self.options.tick_time_type == other.options.tick_time_type,
        ensures
            self.calendar() == other.calendar(),
            self.values() == other.values(),
    {
    }

    /// Ticking adds to the count and leaves the configuration alone.
    pub proof fn lemma_advance_by_adds_ticks(self, ticks: nat)
        ensures
            self.advance_by(ticks) == (TickTimeView {
                tick: self.tick + ticks,
                options: self.options,
            }),
        decreases ticks,
    {
        if ticks > 0 {
            self.lemma_advance_by_adds_ticks((ticks - 1) as nat);
        }
    }

    /// A clock started at tick 0 and ticked `ticks` times is the clock
    /// started at `ticks`, and shows the same calendar position.
    pub proof fn lemma_ticking_equals_restarting(options: TickTimeOptionsView, ticks: nat)
        ensures
            (TickTimeView { tick: 0, options }).advance_by(ticks) == (TickTimeView {
                tick: ticks,
                options,
            }),
            (TickTimeView { tick: 0, options }).advance_by(ticks).calendar() == (TickTimeView {
                tick: ticks,
                options,
            }).calendar(),
    {
        (TickTimeView { tick: 0, options }).lemma_advance_by_adds_ticks(ticks);
    }
}

/// A tick count with the calendar position computed from it.
#[derive(Clone, Copy, Debug)]
struct Reading {
    current_tick: usize,
    values: TickTimeValue,
}

/// Keeps count of ticks and turns the count into year, season, week,
/// month, day, hour, minute and second by the rules of its configuration.
#[derive(Debug)]
pub struct TickTime {
    /// What the clock was built with.
    options: TickTimeOptions,
    /// The tick count and the position that goes with it.
    reading: Reading,
    /// The position before the latest tick. Kept only when events are computed.
    old_values: TickTimeValue,
}

impl View for TickTime {
    type V = TickTimeView;

    closed spec fn view(&self) -> TickTimeView {
        TickTimeView { tick: self.reading.current_tick as nat, options: self.options@ }
    }
}

impl Clone for TickTime {
    fn clone(&self) -> (copy: Self)
        ensures
            copy@ == self@,
    {
        proof {
            use_type_invariant(self);
        }
        TickTime {
            options: self.options.clone(),
            reading: self.reading,
            old_values: self.old_values,
        }
    }
}

impl TickTime {
    #[verifier::type_invariant]
    spec fn position_follows_from_count(self) -> bool {
        &&& self.options.tick_time_type@.is_valid()
        &&& self.options.tick_time_type@.has_positive_lengths()
        &&& self.reading.values@ == self.options.tick_time_type@.calendar_at(
            self.reading.current_tick as nat,
        )
    }

    /// Builds a clock that has counted `current_tick` ticks, for a new game
    /// or to take up a saved one. A configuration that breaks a rule of
    /// `TickTimeTypeView::is_valid` is turned down with the reason; every
    /// other one gives a clock, whatever the tick count.
    ///
    /// A configuration that keeps the rules must also be one that a position
    /// can be computed with: a custom calendar has to give the day at least
    /// one hour, the week at least one day and the year at least one day.
    /// `TickTimeType::has_positive_lengths` tests this.
    pub fn init(current_tick: usize, options: TickTimeOptions) -> (built: Result<
        Self,
        &'static str,
    >)
        requires
            options@.tick_time_type.is_valid() ==> options@.tick_time_type.has_positive_lengths(),
        ensures
            built is Ok <==> options@.tick_time_type.is_valid(),
            built matches Ok(tick_time) ==> tick_time@ == (TickTimeView {
                tick: current_tick as nat,
                options: options@,
            }),
            built matches Err(reason) ==> options@.tick_time_type.rejection() == Some(reason@),
    {
        if let Err(e) = verify_tick_time_type_values(&options.tick_time_type) {
            return Err(e);
        }
        let values = apply_current_tick(current_tick, &options.tick_time_type);
        Ok(
            TickTime {
                options,
                reading: Reading { current_tick, values },
                old_values: TickTimeValue::default(),
            },
        )
    }

    /// Counts one more tick and brings the calendar position up to date.
    /// Returns the fields that the tick changed if the clock was built to
    /// compute events, and nothing otherwise. The values in the event are
    /// those of the calendar position before and after.
    ///
    /// The count must have room for one more tick.
    pub fn tick(&mut self) -> (event: Option<TickTimeEvent>)
        requires
            old(self)@.tick < usize::MAX,
        ensures
            final(self)@ == old(self)@.advance(),
            event == (if old(self)@.options.compute_events {
                Some(event_between(old(self)@.values(), final(self)@.values()))
            } else {
                None
            }),
            old(self)@.values()@ == old(self)@.calendar(),
            final(self)@.values()@ == final(self)@.calendar(),
    {
        proof {
            use_type_invariant(&*self);
            self.options.tick_time_type.lemma_months_can_be_counted();
            self@.lemma_values_are_exact();
            self@.advance().lemma_values_are_exact();
        }
        let current_tick: usize = self.reading.current_tick + 1;
        let values = apply_current_tick(current_tick, &self.options.tick_time_type);
        if self.options.compute_events {
            self.old_values = self.reading.values;
        }
        self.reading = Reading { current_tick, values };
        if self.options.compute_events {
            Some(compute_event(&self.old_values, &self.reading.values))
        } else {
            None
        }
    }

    /// The position as `(year, season, week, month, day, hour, minute, second)`.
    pub fn values(&self) -> (fields: (usize, usize, usize, usize, usize, usize, usize, usize))
        ensures
            fields.0 == self@.calendar().year,
            fields.1 == self@.calendar().season,
            fields.2 == self@.calendar().week,
            fields.3 == self@.calendar().month,
            fields.4 == self@.calendar().day,
            fields.5 == self@.calendar().hour,
            fields.6 == self@.calendar().minute,
            fields.7 == self@.calendar().second,
            fields.1 < 4,
            fields.3 < self@.options.tick_time_type.months_in_a_year(),
            fields.4 < self@.options.tick_time_type.days_in_month(fields.0 as nat, fields.3 as nat),
            fields.5 < self@.options.tick_time_type.hours_in_a_day(),
            fields.6 < 60,
            fields.7 < 60,
    {
        proof {
            use_type_invariant(self);
            self@.options.tick_time_type.lemma_calendar_in_range(self@.tick);
        }
        (
            self.reading.values.year,
            self.reading.values.season,
            self.reading.values.week,
            self.reading.values.month,
            self.reading.values.day,
            self.reading.values.hour,
            self.reading.values.minute,
            self.reading.values.second,
        )
    }

    /// Number of ticks counted.
    pub fn current_tick(&self) -> (tick: usize)
        ensures
            tick == self@.tick,
    {
        self.reading.current_tick
    }

    /// The year, counted from 0.
    pub fn year(&self) -> (year: usize)
        ensures
            year == self@.calendar().year,
    {
        proof {
            use_type_invariant(self);
        }
        self.reading.values.year
    }

    /// The month of the year: one of the months that a year has.
    pub fn month(&self) -> (month: usize)
        ensures
            month == self@.calendar().month,
            month < self@.options.tick_time_type.months_in_a_year(),
    {
        proof {
            use_type_invariant(self);
            self@.options.tick_time_type.lemma_calendar_in_range(self@.tick);
        }
        self.reading.values.month
    }

    /// The season of the year: one of four.
    pub fn season(&self) -> (season: usize)
        ensures
            season == self@.calendar().season,
            season < 4,
    {
        proof {
            use_type_invariant(self);
            self@.options.tick_time_type.lemma_calendar_in_range(self@.tick);
        }
        self.reading.values.season
    }

    /// The week of the year.
    pub fn week(&self) -> (week: usize)
        ensures
            week == self@.calendar().week,
    {
        proof {
            use_type_invariant(self);
        }
        self.reading.values.week
    }

    /// The day of the month: one of the days that the month has.
    pub fn day(&self) -> (day: usize)
        ensures
            day == self@.calendar().day,
            day < self@.options.tick_time_type.days_in_month(
                self@.calendar().year,
                self@.calendar().month,
            ),
    {
        proof {
            use_type_invariant(self);
            self@.options.tick_time_type.lemma_calendar_in_range(self@.tick);
        }
        self.reading.values.day
    }

    /// The hour of the day.
    pub fn hour(&self) -> (hour: usize)
        ensures
            hour == self@.calendar().hour,
            hour < self@.options.tick_time_type.hours_in_a_day(),
    {
        proof {
            use_type_invariant(self);
            self@.options.tick_time_type.lemma_calendar_in_range(self@.tick);
        }
        self.reading.values.hour
    }

    /// The minute of the hour.
    pub fn minute(&self) -> (minute: usize)
        ensures
            minute == self@.calendar().minute,
            minute < 60,
    {
        proof {
            use_type_invariant(self);
            self@.options.tick_time_type.lemma_calendar_in_range(self@.tick);
        }
        self.reading.values.minute
    }

    /// The second of the minute.
    pub fn second(&self) -> (second: usize)
        ensures
            second == self@.calendar().second,
            second < 60,
    {
        proof {
            use_type_invariant(self);
            self@.options.tick_time_type.lemma_calendar_in_range(self@.tick);
        }
        self.reading.values.second
    }
}

} // verus!
