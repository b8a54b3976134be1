//! The decoded unit of protocol state exchanged with the peripheral.

use vstd::prelude::*;

verus! {

/// The payload of one protocol message. The variant set is closed: every
/// message the peripheral and the host exchange is one of these.
#[derive(Clone, Copy, PartialEq, Eq, Structural, Debug)]
pub enum RecordData {
    /// No-op.
    Empty,
    /// Liveness handshake, host to device.
    Ping,
    /// Liveness handshake reply, device to host.
    Pong,
    /// Ask the device for battery telemetry.
    BatteryRequest,
    /// Battery telemetry.
    BatteryResponse { percent: u8, voltage: u16 },
    /// Drive the LED bar.
    SetLedMeter {
        percent: u8,
        warning_threshold: u8,
        danger_threshold: u8,
        invert: bool,
        linger_time: u16,
    },
    /// Reflect or command the output (render) mute state.
    SetOutputMuteState(bool),
    /// Reflect or command the input (capture) mute state.
    SetInputMuteState(bool),
    /// Button-press notification: toggle output mute.
    ToggleOutputMute,
    /// Button-press notification: toggle input mute.
    ToggleInputMute,
}

/// One decoded protocol message: a sender-chosen sequence number and a
/// payload. The serial is used to correlate a causal reply to a request;
/// receivers may reuse or ignore it.
#[derive(Clone, Copy, PartialEq, Eq, Structural, Debug)]
pub struct Record {
    pub serial: u32,
    pub data: RecordData,
}

impl Record {
    pub fn new(serial: u32, data: RecordData) -> (r: Record)
        ensures
            r == (Record { serial, data }),
    {
        Record { serial, data }
    }
}

impl RecordData {
    /// A LED-meter record that shows a bare percentage: both thresholds off,
    /// no inversion, and a fixed linger time.
    pub fn set_led_meter_no_threshold(percent: u8) -> (d: RecordData)
        ensures
            d == (RecordData::SetLedMeter {
                percent,
                warning_threshold: 0,
                danger_threshold: 0,
                invert: false,
                linger_time: 1000,
            }),
    {
        RecordData::SetLedMeter {
            percent,
            warning_threshold: 0,
            danger_threshold: 0,
            invert: false,
            linger_time: 1000,
        }
    }
}

} // verus!
