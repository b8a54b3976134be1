//! The connection lifecycle state machine and the reconciliation decisions
//! of the polling loop.
//!
//! The application is `Disconnected` (initial, with the last connect or
//! write error captured) or `Connected`. It leaves `Disconnected` when a
//! transport open succeeds and returns there on a transport-level write
//! fault. The caller running the outer loop applies a bounded retry policy
//! around failed connect attempts (`RetryPolicy`).
//!
//! All decisions about which outbound records a poll iteration emits are
//! made here, from plain values; performing the I/O (the HID writes and
//! reads, the audio-backend queries whose results arrive as
//! `AudioSnapshot`) is the caller's part.

use vstd::prelude::*;

use crate::record::{Record, RecordData};
use crate::transport::{ConnectError, WriteError};
use crate::volume::{
    changed_bool, changed_u8, spec_fresh_manager, spec_refreshed, AudioSnapshot, VolumeManager,
};

verus! {

/// The sender serial of a pre-read volume-change record.
pub const PRE_READ_VOL_SERIAL: u32 = 123;

/// The sender serial of a pre-read output-mute-change record.
pub const PRE_READ_MUTE_SERIAL: u32 = 456;

/// The sender serial of a pre-read input-mute-change record.
pub const PRE_READ_MIC_MUTE_SERIAL: u32 = 789;

/// The warning threshold of the battery-level LED display.
pub const BATTERY_WARNING_THRESHOLD: u8 = 6;

/// The danger threshold of the battery-level LED display.
pub const BATTERY_DANGER_THRESHOLD: u8 = 2;

/// How many consecutive failed connect attempts are retried before the
/// outer loop gives up.
pub const MAX_CONNECT_FAILURES: u32 = 100;

/// The error that last drove the application back to `Disconnected`.
#[derive(Clone, PartialEq, Eq, Debug)]
pub enum AppError {
    /// A transport-level write fault ended a connected session.
    Write(WriteError),
    /// A connect attempt failed.
    Connect(ConnectError),
}

/// The connection lifecycle state. The transport handle itself is owned by
/// the caller, exclusively while `Connected`, and destroyed on the
/// transition back to `Disconnected`.
#[derive(Clone, PartialEq, Eq, Debug)]
pub enum ConnState {
    Disconnected { last_error: Option<AppError> },
    Connected,
}

/// The device-synchronization engine: the connection state and the
/// change-detection state of the three polled audio signals.
#[derive(Clone, PartialEq, Eq, Debug)]
pub struct Application {
    pub volume_manager: VolumeManager,
    pub state: ConnState,
}

/// A serial advanced by `k`, wrapping at the 32-bit boundary.
pub open spec fn serial_plus(s: u32, k: u32) -> u32 {
    if s + k > u32::MAX {
        (s + k - 0x100000000) as u32
    } else {
        (s + k) as u32
    }
}

/// The records one pre-read refresh emits: exactly one per changed signal,
/// in the fixed order volume, output mute, input mute. A volume change
/// drives the LED meter with the new volume; a mute change pushes the new
/// state.
pub open spec fn spec_pre_read_records(vm: VolumeManager) -> Seq<Record> {
    (match changed_u8(vm.previous_vol, vm.current_vol) {
        Some(v) => seq![
            Record {
                serial: PRE_READ_VOL_SERIAL,
                data: RecordData::SetLedMeter {
                    percent: v,
                    warning_threshold: 0,
                    danger_threshold: 0,
                    invert: false,
                    linger_time: 1000,
                },
            },
        ],
        None => Seq::empty(),
    }) + (match changed_bool(vm.prev_mute, vm.curr_mute) {
        Some(m) => seq![
            Record { serial: PRE_READ_MUTE_SERIAL, data: RecordData::SetOutputMuteState(m) },
        ],
        None => Seq::empty(),
    }) + (match changed_bool(vm.prev_mic_mute, vm.curr_mic_mute) {
        Some(m) => seq![
            Record { serial: PRE_READ_MIC_MUTE_SERIAL, data: RecordData::SetInputMuteState(m) },
        ],
        None => Seq::empty(),
    })
}

/// The records a `Pong` with serial `s` triggers: a battery request at
/// `s + 1`, then an eager resync of the live mute states, output mute at
/// `s + 2` and input mute at `s + 3`, each only where the live state is
/// known.
pub open spec fn spec_pong_replies(s: u32, live: AudioSnapshot) -> Seq<Record> {
    seq![Record { serial: serial_plus(s, 1), data: RecordData::BatteryRequest }] + (
    match live.output_mute {
        Some(m) => seq![Record { serial: serial_plus(s, 2), data: RecordData::SetOutputMuteState(m) }],
        None => Seq::empty(),
    }) + (match live.input_mute {
        Some(m) => seq![Record { serial: serial_plus(s, 3), data: RecordData::SetInputMuteState(m) }],
        None => Seq::empty(),
    })
}

/// The record a `BatteryResponse` with serial `s` triggers: the LED meter
/// repurposed to show the battery level, with the battery thresholds.
pub open spec fn spec_battery_reply(s: u32, percent: u8) -> Record {
    Record {
        serial: serial_plus(s, 1),
        data: RecordData::SetLedMeter {
            percent,
            warning_threshold: BATTERY_WARNING_THRESHOLD,
            danger_threshold: BATTERY_DANGER_THRESHOLD,
            invert: false,
            linger_time: 1000,
        },
    }
}

/// What dispatching one inbound record decided: records to write out, and
/// the capture mute state the audio backend is to be set to, if any.
pub struct ProcessOutcome {
    pub emit: Vec<Record>,
    pub set_input_mute: Option<bool>,
}

impl Application {
    /// A fresh application: disconnected with no error recorded, and the
    /// volume manager refreshed once from an initial snapshot (so the
    /// first poll cycle has a `previous` baseline and reports no change).
    pub fn new(initial: &AudioSnapshot) -> (app: Application)
        ensures
            app.state == (ConnState::Disconnected { last_error: None }),
            app.volume_manager == spec_refreshed(spec_fresh_manager(), *initial),
    {
        let mut volume_manager = VolumeManager::new();
        volume_manager.refresh(initial);
        Application { volume_manager, state: ConnState::Disconnected { last_error: None } }
    }

    /// Record the outcome of one transport-open attempt: success enters
    /// `Connected`, failure stays `Disconnected` with the error captured.
    /// The volume manager carries over either way.
    pub fn connect(&mut self, outcome: Result<(), ConnectError>)
        ensures
            final(self).volume_manager == old(self).volume_manager,
            outcome is Ok ==> final(self).state == ConnState::Connected,
            outcome matches Err(e) ==> final(self).state == (ConnState::Disconnected {
                last_error: Some(AppError::Connect(e)),
            }),
    {
        match outcome {
            Ok(()) => {
                self.state = ConnState::Connected;
            },
            Err(e) => {
                self.state = ConnState::Disconnected { last_error: Some(AppError::Connect(e)) };
            },
        }
    }

    /// A transport-level write fault anywhere in the session loop is fatal
    /// to the connection: back to `Disconnected` with the error captured.
    pub fn on_write_failure(&mut self, err: WriteError)
        ensures
            final(self).volume_manager == old(self).volume_manager,
            final(self).state == (ConnState::Disconnected {
                last_error: Some(AppError::Write(err)),
            }),
    {
        self.state = ConnState::Disconnected { last_error: Some(AppError::Write(err)) };
    }

    /// The pre-read refresh, run strictly before every blocking read:
    /// take the fresh backend snapshot, then emit exactly one record per
    /// changed signal (volume, output mute, input mute, in that order).
    /// Emissions are independent; several signals changing in one cycle
    /// give several records, never a merged one.
    pub fn before_read(&mut self, fresh: &AudioSnapshot) -> (out: Vec<Record>)
        ensures
            final(self).state == old(self).state,
            final(self).volume_manager == spec_refreshed(old(self).volume_manager, *fresh),
            out@ == spec_pre_read_records(final(self).volume_manager),
    {
        self.volume_manager.refresh(fresh);
        let mut out: Vec<Record> = Vec::new();
        match self.volume_manager.get_vol_if_changed() {
            Some(v) => {
                out.push(Record::new(PRE_READ_VOL_SERIAL, RecordData::set_led_meter_no_threshold(v)));
            },
            None => {},
        }
        match self.volume_manager.get_mute_if_changed() {
            Some(m) => {
                out.push(Record::new(PRE_READ_MUTE_SERIAL, RecordData::SetOutputMuteState(m)));
            },
            None => {},
        }
        match self.volume_manager.get_mic_mute_if_changed() {
            Some(m) => {
                out.push(Record::new(PRE_READ_MIC_MUTE_SERIAL, RecordData::SetInputMuteState(m)));
            },
            None => {},
        }
        assert(out@ =~= spec_pre_read_records(self.volume_manager));
        out
    }

    /// Dispatch one inbound record from the peripheral, with the live
    /// backend state at hand:
    /// - `Pong` answers with a battery request and an eager resync of both
    ///   mute states (`spec_pong_replies`);
    /// - `BatteryResponse` drives the LED meter with the battery level
    ///   (`spec_battery_reply`);
    /// - `ToggleInputMute` asks for the capture device's mute state to be
    ///   set to the negation of the current sample (refreshing from `live`
    ///   when no sample is at hand); no record is emitted in the same
    ///   cycle — the next pre-read refresh detects and pushes the change;
    /// - every other variant is ignored.
    pub fn process_record(&mut self, record: &Record, live: &AudioSnapshot) -> (outcome:
        ProcessOutcome)
        ensures
            final(self).state == old(self).state,
            record.data is Pong ==> final(self).volume_manager == old(self).volume_manager
                && outcome.emit@ == spec_pong_replies(record.serial, *live)
                && outcome.set_input_mute is None,
            record.data matches RecordData::BatteryResponse { percent, .. }
                ==> final(self).volume_manager == old(self).volume_manager
                && outcome.emit@ == seq![spec_battery_reply(record.serial, percent)]
                && outcome.set_input_mute is None,
            record.data is ToggleInputMute ==> outcome.emit@.len() == 0
                && (match old(self).volume_manager.curr_mic_mute {
                Some(m) => final(self).volume_manager == old(self).volume_manager
                    && outcome.set_input_mute == Some(!m),
                None => final(self).volume_manager == spec_refreshed(
                    old(self).volume_manager,
                    *live,
                ) && outcome.set_input_mute == (match live.input_mute {
                    Some(m) => Some(!m),
                    None => None,
                }),
            }),
            !(record.data is Pong || record.data is BatteryResponse
                || record.data is ToggleInputMute) ==> *final(self) == *old(self)
                && outcome.emit@.len() == 0 && outcome.set_input_mute is None,
    {
        match record.data {
            RecordData::Pong => {
                let mut emit: Vec<Record> = Vec::new();
                emit.push(Record::new(record.serial.wrapping_add(1), RecordData::BatteryRequest));
                match live.output_mute {
                    Some(m) => {
                        emit.push(
                            Record::new(
                                record.serial.wrapping_add(2),
                                RecordData::SetOutputMuteState(m),
                            ),
                        );
                    },
                    None => {},
                }
                match live.input_mute {
                    Some(m) => {
                        emit.push(
                            Record::new(
                                record.serial.wrapping_add(3),
                                RecordData::SetInputMuteState(m),
                            ),
                        );
                    },
                    None => {},
                }
                assert(emit@ =~= spec_pong_replies(record.serial, *live));
                ProcessOutcome { emit, set_input_mute: None }
            },
            RecordData::BatteryResponse { percent, .. } => {
                let mut emit: Vec<Record> = Vec::new();
                emit.push(
                    Record::new(
                        record.serial.wrapping_add(1),
                        RecordData::SetLedMeter {
                            percent,
                            warning_threshold: BATTERY_WARNING_THRESHOLD,
                            danger_threshold: BATTERY_DANGER_THRESHOLD,
                            invert: false,
                            linger_time: 1000,
                        },
                    ),
                );
                assert(emit@ =~= seq![spec_battery_reply(record.serial, percent)]);
                ProcessOutcome { emit, set_input_mute: None }
            },
            RecordData::ToggleInputMute => {
                let target = self.volume_manager.toggle_mic_mute(live);
                ProcessOutcome { emit: Vec::new(), set_input_mute: target }
            },
            _ => ProcessOutcome { emit: Vec::new(), set_input_mute: None },
        }
    }
}

/// The bounded retry policy of the outer connect loop: a fixed backoff
/// delay between attempts, and after more than `MAX_CONNECT_FAILURES`
/// consecutive failed attempts the loop gives up and the process exits
/// with a failure status. A successful connect resets the count.
#[derive(Clone, Copy, PartialEq, Eq, Structural, Debug)]
pub struct RetryPolicy {
    pub failures: u32,
}

impl RetryPolicy {
    /// A policy with no failures recorded.
    pub fn new() -> (p: RetryPolicy)
        ensures
            p.failures == 0,
    {
        RetryPolicy { failures: 0 }
    }

    /// Record one failed connect attempt. Yields `true` — give up — as
    /// soon as the count of consecutive failures exceeds
    /// `MAX_CONNECT_FAILURES`; at the bound itself the caller still
    /// retries. The count saturates rather than wraps.
    pub fn on_failure(&mut self) -> (give_up: bool)
        ensures
            final(self).failures as int == if old(self).failures < u32::MAX {
                old(self).failures + 1
            } else {
                old(self).failures as int
            },
            give_up == (final(self).failures > MAX_CONNECT_FAILURES),
    {
        if self.failures < u32::MAX {
            self.failures = self.failures + 1;
        }
        self.failures > MAX_CONNECT_FAILURES
    }

    /// Record a successful connect: the failure count starts over, so the
    /// bound is on consecutive failures.
    pub fn on_success(&mut self)
        ensures
            final(self).failures == 0,
    {
        self.failures = 0;
    }
}

} // verus!
