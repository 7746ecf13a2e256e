//! The event model: what happened, and when.

use vstd::prelude::*;

verus! {

/// A calendar day, counted in whole days from a fixed origin. A larger key is a later day.
pub type DayKey = i32;

/// How many volume units of a bottle feeding make one ounce.
pub const VOLUME_UNITS_PER_OUNCE: u128 = 1000;

/// Milliseconds in a minute.
pub const MILLIS_PER_MINUTE: u128 = 60_000;

/// Milliseconds in an hour.
pub const MILLIS_PER_HOUR: u128 = 3_600_000;

/// A wall-clock instant: a calendar day and the milliseconds elapsed since its midnight.
#[derive(Clone, Copy, Debug, PartialEq, Eq, Structural)]
pub struct Timestamp {
    pub day: DayKey,
    pub millis: u32,
}

impl Timestamp {
    /// Midnight at the start of `day`.
    pub open spec fn midnight_of(day: DayKey) -> Timestamp {
        Timestamp { day, millis: 0 }
    }

    /// Whether `self` is strictly earlier than `other`.
    pub open spec fn earlier_than(self, other: Timestamp) -> bool {
        self.day < other.day || (self.day == other.day && self.millis < other.millis)
    }

    /// Midnight at the start of `day`.
    pub fn at_midnight(day: DayKey) -> (t: Timestamp)
        ensures
            t == Self::midnight_of(day),
    {
        Timestamp { day, millis: 0 }
    }

    /// The calendar day this instant falls on.
    pub fn day_key(&self) -> (d: DayKey)
        ensures
            d == self.day,
    {
        self.day
    }

    /// Chronological order: by day, then by time of day.
    pub fn is_before(&self, other: &Timestamp) -> (b: bool)
        ensures
            b == self.earlier_than(*other),
    {
        self.day < other.day || (self.day == other.day && self.millis < other.millis)
    }
}

/// What a bottle held.
#[derive(Clone, Copy, Debug, PartialEq, Eq, Structural)]
pub enum MilkKind {
    BreastMilk,
    Formula,
    Unknown,
}

/// Which breast a feeding was on.
#[derive(Clone, Copy, Debug, PartialEq, Eq, Structural)]
pub enum BreastSide {
    Left,
    Right,
}

/// One entry of the care log.
///
/// Bottle volumes are in thousandths of an ounce, durations in milliseconds.
#[derive(Clone, Copy, Debug, PartialEq, Eq)]
pub enum Event {
    BottleFeeding { time: Timestamp, volume: u32, milk: MilkKind },
    BreastFeeding { side: BreastSide, start: Timestamp, duration: i64 },
    /// `end` is `None` while the sleep is still going on.
    SleepInterval { start: Timestamp, end: Option<Timestamp>, duration: i64 },
    PumpingInterval { start: Timestamp, milliliters: u32 },
}

impl Event {
    /// The instant an event is filed under: when a feeding was given, when a
    /// sleep or a pumping session began.
    pub open spec fn time_spec(self) -> Timestamp {
        match self {
            Event::BottleFeeding { time, .. } => time,
            Event::BreastFeeding { start, .. } => start,
            Event::SleepInterval { start, .. } => start,
            Event::PumpingInterval { start, .. } => start,
        }
    }

    /// The event's canonical timestamp, whatever its variant.
    pub fn time(&self) -> (t: Timestamp)
        ensures
            t == self.time_spec(),
    {
        match *self {
            Event::BottleFeeding { time, .. } => time,
            Event::BreastFeeding { start, .. } => start,
            Event::SleepInterval { start, .. } => start,
            Event::PumpingInterval { start, .. } => start,
        }
    }
}

} // verus!
