//! The four event-record shapes carried by binary event-table bodies.
//!
//! Floating-point wire fields are held as their raw IEEE-754 little-endian
//! bit patterns (`u64`), so that the codec is bit-exact; a consumer converts
//! the bits to a float at the edge.

use vstd::prelude::*;

verus! {

/// A value update: target UUID and the 8-byte bit pattern of an f64.
#[derive(Debug, Clone)]
pub struct ValueEvent {
    pub uuid: String,
    pub value: u64,
}

/// A text update: target UUID, icon UUID and the text itself.
#[derive(Debug, Clone)]
pub struct TextEvent {
    pub uuid: String,
    pub icon: String,
    pub text: String,
}

/// One daytimer schedule entry; `value` is an f64 bit pattern.
#[derive(Debug, Clone, Copy, PartialEq, Eq, Structural)]
pub struct DaytimerEntry {
    pub mode: i32,
    pub from: i32,
    pub to: i32,
    pub need_activate: i32,
    pub value: u64,
}

/// A daytimer update; `default_value` is an f64 bit pattern.
#[derive(Debug, Clone)]
pub struct DaytimerEvent {
    pub uuid: String,
    pub default_value: u64,
    pub entries: Vec<DaytimerEntry>,
}

/// One weather forecast entry; the six wide fields are f64 bit patterns.
#[derive(Debug, Clone, Copy, PartialEq, Eq, Structural)]
pub struct WeatherEntry {
    pub timestamp: i32,
    pub weather_type: i32,
    pub wind_direction: i32,
    pub solar_radiation: i32,
    pub relative_humidity: i32,
    pub temperature: u64,
    pub perceived_temperature: u64,
    pub dew_point: u64,
    pub precipitation: u64,
    pub wind_speed: u64,
    pub barometric_pressure: u64,
}

/// A weather update.
#[derive(Debug, Clone)]
pub struct WeatherEvent {
    pub uuid: String,
    pub last_update: u32,
    pub entries: Vec<WeatherEntry>,
}

/// A decoded event-table body: one batch of records of a single kind.
#[derive(Debug, Clone)]
pub enum EventTable {
    ValueEvents(Vec<ValueEvent>),
    TextEvents(Vec<TextEvent>),
    DaytimerEvents(Vec<DaytimerEvent>),
    WeatherEvents(Vec<WeatherEvent>),
}

/// Mathematical image of a `ValueEvent`.
pub ghost struct ValueEventV {
    pub uuid: Seq<char>,
    pub value: u64,
}

/// Mathematical image of a `TextEvent`.
pub ghost struct TextEventV {
    pub uuid: Seq<char>,
    pub icon: Seq<char>,
    pub text: Seq<char>,
}

/// Mathematical image of a `DaytimerEvent`.
pub ghost struct DaytimerEventV {
    pub uuid: Seq<char>,
    pub default_value: u64,
    pub entries: Seq<DaytimerEntry>,
}

/// Mathematical image of a `WeatherEvent`.
pub ghost struct WeatherEventV {
    pub uuid: Seq<char>,
    pub last_update: u32,
    pub entries: Seq<WeatherEntry>,
}

/// Mathematical image of an `EventTable`.
pub ghost enum EventTableV {
    ValueEvents(Seq<ValueEventV>),
    TextEvents(Seq<TextEventV>),
    DaytimerEvents(Seq<DaytimerEventV>),
    WeatherEvents(Seq<WeatherEventV>),
}

impl View for ValueEvent {
    type V = ValueEventV;

    open spec fn view(&self) -> ValueEventV {
        ValueEventV { uuid: self.uuid@, value: self.value }
    }
}

impl View for TextEvent {
    type V = TextEventV;

    open spec fn view(&self) -> TextEventV {
        TextEventV { uuid: self.uuid@, icon: self.icon@, text: self.text@ }
    }
}

impl View for DaytimerEvent {
    type V = DaytimerEventV;

    open spec fn view(&self) -> DaytimerEventV {
        DaytimerEventV { uuid: self.uuid@, default_value: self.default_value, entries: self.entries@ }
    }
}

impl View for WeatherEvent {
    type V = WeatherEventV;

    open spec fn view(&self) -> WeatherEventV {
        WeatherEventV { uuid: self.uuid@, last_update: self.last_update, entries: self.entries@ }
    }
}

impl View for EventTable {
    type V = EventTableV;

    open spec fn view(&self) -> EventTableV {
        match self {
            EventTable::ValueEvents(evs) => EventTableV::ValueEvents(value_events_view(evs@)),
            EventTable::TextEvents(evs) => EventTableV::TextEvents(text_events_view(evs@)),
            EventTable::DaytimerEvents(evs) => EventTableV::DaytimerEvents(daytimer_events_view(evs@)),
            EventTable::WeatherEvents(evs) => EventTableV::WeatherEvents(weather_events_view(evs@)),
        }
    }
}

pub open spec fn value_events_view(s: Seq<ValueEvent>) -> Seq<ValueEventV> {
    s.map_values(|e: ValueEvent| e@)
}

pub open spec fn text_events_view(s: Seq<TextEvent>) -> Seq<TextEventV> {
    s.map_values(|e: TextEvent| e@)
}

pub open spec fn daytimer_events_view(s: Seq<DaytimerEvent>) -> Seq<DaytimerEventV> {
    s.map_values(|e: DaytimerEvent| e@)
}

pub open spec fn weather_events_view(s: Seq<WeatherEvent>) -> Seq<WeatherEventV> {
    s.map_values(|e: WeatherEvent| e@)
}

} // verus!
