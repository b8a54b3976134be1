//! The display state a presentation layer keeps of the peripheral: a pure
//! fold over the event stream.
//!
//! Rendering and user input live outside the library; this module only
//! answers what the display state is after each observed event.

use vstd::prelude::*;

use crate::record::RecordData;
use crate::router::Event;

verus! {

/// What a presentation layer shows of the peripheral: the last reported
/// battery level, the last driven LED meter level, the last pushed output
/// mute state, and the battery level a user has dialed in to illuminate.
#[derive(Clone, Copy, PartialEq, Eq, Structural, Debug)]
pub struct KeyboardView {
    pub bat_pc: u8,
    pub set_bat_pc: u8,
    pub led_meter_pc: u8,
    pub muted: bool,
}

/// The view after observing one event: a battery response from the device
/// updates the battery level; a pushed output-mute record updates the mute
/// display; a pushed LED-meter record updates the meter display; every
/// other event leaves the view as it is.
pub open spec fn spec_view_step(v: KeyboardView, e: Event) -> KeyboardView {
    match e {
        Event::RecordFromDevice(rec) => match rec.data {
            RecordData::BatteryResponse { percent, .. } => KeyboardView { bat_pc: percent, ..v },
            _ => v,
        },
        Event::RecordToDevice(rec) => match rec.data {
            RecordData::SetOutputMuteState(state) => KeyboardView { muted: state, ..v },
            RecordData::SetLedMeter { percent, .. } => KeyboardView { led_meter_pc: percent, ..v },
            _ => v,
        },
        _ => v,
    }
}

impl KeyboardView {
    /// A view with nothing observed yet: zero levels, not muted.
    pub fn new() -> (v: KeyboardView)
        ensures
            v == (KeyboardView { bat_pc: 0, set_bat_pc: 0, led_meter_pc: 0, muted: false }),
    {
        KeyboardView { bat_pc: 0, set_bat_pc: 0, led_meter_pc: 0, muted: false }
    }

    /// Fold one observed event into the view (see `spec_view_step`).
    pub fn process_event(&mut self, event: &Event)
        ensures
            *final(self) == spec_view_step(*old(self), *event),
    {
        match event {
            Event::RecordFromDevice(rec) => match rec.data {
                RecordData::BatteryResponse { percent, .. } => {
                    self.bat_pc = percent;
                },
                _ => {},
            },
            Event::RecordToDevice(rec) => match rec.data {
                RecordData::SetOutputMuteState(state) => {
                    self.muted = state;
                },
                RecordData::SetLedMeter { percent, .. } => {
                    self.led_meter_pc = percent;
                },
                _ => {},
            },
            _ => {},
        }
    }
}

} // verus!
