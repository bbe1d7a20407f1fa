//! `UIDatePicker`.
//!
//! The count-down duration is an `f64` that the picker only stores, kept as
//! its bit pattern.

use vstd::prelude::*;
use crate::guest::{Id, NIL, NSInteger, RefOp, decoded_or, nonnil_or, release_unless_nil, retain_unless_nil, replace_retained};

verus! {

// UIDatePickerMode
pub type UIDatePickerMode = NSInteger;
pub const UI_DATE_PICKER_MODE_TIME: UIDatePickerMode = 0;
pub const UI_DATE_PICKER_MODE_DATE: UIDatePickerMode = 1;
pub const UI_DATE_PICKER_MODE_DATE_AND_TIME: UIDatePickerMode = 2;
pub const UI_DATE_PICKER_MODE_COUNT_DOWN_TIMER: UIDatePickerMode = 3;

pub struct UIDatePickerHostObject {
    pub date_picker_mode: UIDatePickerMode,
    /// `NSDate*`
    pub date: Id,
    /// `NSLocale*`
    pub locale: Id,
    /// `NSCalendar*`
    pub calendar: Id,
    /// `NSTimeZone*`
    pub time_zone: Id,
    /// `NSDate*`
    pub minimum_date: Id,
    /// `NSDate*`
    pub maximum_date: Id,
    pub minute_interval: NSInteger,
    /// Bit pattern of the `f64` count-down duration.
    pub countdown_duration_bits: u64,
}

impl Default for UIDatePickerHostObject {
    fn default() -> (h: Self)
        ensures
            h.date_picker_mode == UI_DATE_PICKER_MODE_DATE_AND_TIME,
            h.date == NIL,
            h.locale == NIL,
            h.calendar == NIL,
            h.time_zone == NIL,
            h.minimum_date == NIL,
            h.maximum_date == NIL,
            h.minute_interval == 1,
            h.countdown_duration_bits == 0,
    {
        UIDatePickerHostObject {
            date_picker_mode: UI_DATE_PICKER_MODE_DATE_AND_TIME,
            date: NIL,
            locale: NIL,
            calendar: NIL,
            time_zone: NIL,
            minimum_date: NIL,
            maximum_date: NIL,
            minute_interval: 1,
            countdown_duration_bits: 0,
        }
    }
}

/// Which retained object property of a date picker a setter sets.
#[derive(Clone, Copy, Debug, PartialEq, Eq, Structural)]
pub enum DatePickerObjectProperty {
    Date,
    Locale,
    Calendar,
    TimeZone,
    MinimumDate,
    MaximumDate,
}

/// The picker's value of a retained property.
pub open spec fn property_of(h: &UIDatePickerHostObject, p: DatePickerObjectProperty) -> Id {
    match p {
        DatePickerObjectProperty::Date => h.date,
        DatePickerObjectProperty::Locale => h.locale,
        DatePickerObjectProperty::Calendar => h.calendar,
        DatePickerObjectProperty::TimeZone => h.time_zone,
        DatePickerObjectProperty::MinimumDate => h.minimum_date,
        DatePickerObjectProperty::MaximumDate => h.maximum_date,
    }
}

impl UIDatePickerHostObject {
    /// `initWithCoder:` given the decoded values: the mode and minute
    /// interval present in the archive and the date objects (nil if absent;
    /// retained otherwise). Returns whether the archive had no date, in which
    /// case the runtime creates the current date for the picker (see
    /// `adopt_current_date`).
    pub fn init_with_coder(
        &mut self,
        mode: Option<UIDatePickerMode>,
        date: Id,
        minimum_date: Id,
        maximum_date: Id,
        minute_interval: Option<NSInteger>,
    ) -> (r: (Vec<RefOp>, bool))
        ensures
            r.0@ == retain_unless_nil(date) + retain_unless_nil(minimum_date) + retain_unless_nil(
                maximum_date,
            ),
            r.1 == (date == NIL),
            final(self).date_picker_mode == decoded_or(mode, old(self).date_picker_mode),
            final(self).date == nonnil_or(date, old(self).date),
            final(self).minimum_date == nonnil_or(minimum_date, old(self).minimum_date),
            final(self).maximum_date == nonnil_or(maximum_date, old(self).maximum_date),
            final(self).minute_interval == decoded_or(minute_interval, old(self).minute_interval),
            final(self).locale == old(self).locale,
            final(self).calendar == old(self).calendar,
            final(self).time_zone == old(self).time_zone,
            final(self).countdown_duration_bits == old(self).countdown_duration_bits,
    {
        if let Some(m) = mode {
            self.date_picker_mode = m;
        }
        let mut ops: Vec<RefOp> = Vec::new();
        let needs_current_date = date == NIL;
        if date != NIL {
            ops.push(RefOp::Retain(date));
            self.date = date;
        }
        if minimum_date != NIL {
            ops.push(RefOp::Retain(minimum_date));
            self.minimum_date = minimum_date;
        }
        if maximum_date != NIL {
            ops.push(RefOp::Retain(maximum_date));
            self.maximum_date = maximum_date;
        }
        if let Some(i) = minute_interval {
            self.minute_interval = i;
        }
        proof {
            assert(ops@ =~= retain_unless_nil(date) + retain_unless_nil(minimum_date)
                + retain_unless_nil(maximum_date));
        }
        (ops, needs_current_date)
    }

    /// Keeps (and retains) the current date the runtime created for a
    /// picker whose archive had none.
    pub fn adopt_current_date(&mut self, current_date: Id) -> (ops: Vec<RefOp>)
        ensures
            final(self).date == current_date,
            ops@ == seq![RefOp::Retain(current_date)],
            final(self).minimum_date == old(self).minimum_date,
            final(self).maximum_date == old(self).maximum_date,
            final(self).date_picker_mode == old(self).date_picker_mode,
    {
        self.date = current_date;
        vec![RefOp::Retain(current_date)]
    }

    /// `setDate:` (also `setDate:animated:`), `setLocale:`, `setCalendar:`,
    /// `setTimeZone:`, `setMinimumDate:`, `setMaximumDate:`: the new value
    /// is retained, the old one released; the other properties keep their
    /// values.
    pub fn set_object_property(&mut self, property: DatePickerObjectProperty, value: Id) -> (ops: Vec<
        RefOp,
    >)
        ensures
            property_of(final(self), property) == value,
            ops@ == release_unless_nil(property_of(old(self), property)) + retain_unless_nil(value),
            forall|p: DatePickerObjectProperty|
                p != property ==> property_of(final(self), p) == property_of(old(self), p),
            final(self).date_picker_mode == old(self).date_picker_mode,
            final(self).minute_interval == old(self).minute_interval,
            final(self).countdown_duration_bits == old(self).countdown_duration_bits,
    {
        match property {
            DatePickerObjectProperty::Date => replace_retained(&mut self.date, value),
            DatePickerObjectProperty::Locale => replace_retained(&mut self.locale, value),
            DatePickerObjectProperty::Calendar => replace_retained(&mut self.calendar, value),
            DatePickerObjectProperty::TimeZone => replace_retained(&mut self.time_zone, value),
            DatePickerObjectProperty::MinimumDate => replace_retained(&mut self.minimum_date, value),
            DatePickerObjectProperty::MaximumDate => replace_retained(&mut self.maximum_date, value),
        }
    }

    /// What `dealloc` releases: date, locale, calendar, time zone, minimum
    /// and maximum date (nil ones skipped).
    pub fn dealloc_releases(&self) -> (ops: Vec<RefOp>)
        ensures
            ops@ == release_unless_nil(self.date) + release_unless_nil(self.locale)
                + release_unless_nil(self.calendar) + release_unless_nil(self.time_zone)
                + release_unless_nil(self.minimum_date) + release_unless_nil(self.maximum_date),
    {
        let mut ops: Vec<RefOp> = Vec::new();
        if self.date != NIL {
            ops.push(RefOp::Release(self.date));
        }
        if self.locale != NIL {
            ops.push(RefOp::Release(self.locale));
        }
        if self.calendar != NIL {
            ops.push(RefOp::Release(self.calendar));
        }
        if self.time_zone != NIL {
            ops.push(RefOp::Release(self.time_zone));
        }
        if self.minimum_date != NIL {
            ops.push(RefOp::Release(self.minimum_date));
        }
        if self.maximum_date != NIL {
            ops.push(RefOp::Release(self.maximum_date));
        }
        proof {
            assert(ops@ =~= release_unless_nil(self.date) + release_unless_nil(self.locale)
                + release_unless_nil(self.calendar) + release_unless_nil(self.time_zone)
                + release_unless_nil(self.minimum_date) + release_unless_nil(self.maximum_date));
        }
        ops
    }
}

} // verus!
