use keysync::record::{Record, RecordData};
use keysync::session::{
    AppError, Application, ConnState, RetryPolicy, MAX_CONNECT_FAILURES, PRE_READ_MIC_MUTE_SERIAL,
    PRE_READ_MUTE_SERIAL, PRE_READ_VOL_SERIAL,
};
use keysync::transport::{ConnectError, TransportError, WriteError};
use keysync::volume::{AudioSnapshot, VolumeManager};

fn snapshot(volume: Option<u8>, output_mute: Option<bool>, input_mute: Option<bool>) -> AudioSnapshot {
    AudioSnapshot { volume, output_mute, input_mute }
}

fn quiet() -> AudioSnapshot {
    snapshot(Some(30), Some(false), Some(false))
}

// Change detection on the volume signal.

#[test]
fn equal_samples_are_no_change() {
    let vm = VolumeManager {
        previous_vol: Some(30),
        current_vol: Some(30),
        prev_mute: None,
        curr_mute: None,
        prev_mic_mute: None,
        curr_mic_mute: None,
    };
    assert_eq!(vm.get_vol_if_changed(), None);
}

#[test]
fn first_sample_is_no_change() {
    let vm = VolumeManager {
        previous_vol: None,
        current_vol: Some(30),
        prev_mute: None,
        curr_mute: None,
        prev_mic_mute: None,
        curr_mic_mute: None,
    };
    assert_eq!(vm.get_vol_if_changed(), None);
}

#[test]
fn different_samples_report_the_new_value() {
    let vm = VolumeManager {
        previous_vol: Some(30),
        current_vol: Some(45),
        prev_mute: None,
        curr_mute: None,
        prev_mic_mute: None,
        curr_mic_mute: None,
    };
    assert_eq!(vm.get_vol_if_changed(), Some(45));
}

#[test]
fn mute_change_detection_mirrors_volume() {
    let mut vm = VolumeManager::new();
    vm.refresh(&snapshot(None, Some(false), Some(true)));
    assert_eq!(vm.get_mute_if_changed(), None);
    assert_eq!(vm.get_mic_mute_if_changed(), None);
    vm.refresh(&snapshot(None, Some(true), Some(true)));
    assert_eq!(vm.get_mute_if_changed(), Some(true));
    assert_eq!(vm.get_mic_mute_if_changed(), None);
}

#[test]
fn refresh_shifts_current_to_previous() {
    let mut vm = VolumeManager::new();
    vm.refresh(&snapshot(Some(10), Some(true), None));
    vm.refresh(&snapshot(Some(20), None, Some(false)));
    assert_eq!(vm.previous_vol, Some(10));
    assert_eq!(vm.current_vol, Some(20));
    assert_eq!(vm.prev_mute, Some(true));
    assert_eq!(vm.curr_mute, None);
    assert_eq!(vm.prev_mic_mute, None);
    assert_eq!(vm.curr_mic_mute, Some(false));
}

#[test]
fn absent_sample_is_never_a_change() {
    let mut vm = VolumeManager::new();
    vm.refresh(&snapshot(Some(10), Some(true), Some(true)));
    vm.refresh(&snapshot(None, None, None));
    assert_eq!(vm.get_vol_if_changed(), None);
    assert_eq!(vm.get_mute_if_changed(), None);
    assert_eq!(vm.get_mic_mute_if_changed(), None);
}

// The mic-mute toggle decision.

#[test]
fn toggle_negates_the_current_sample() {
    let mut vm = VolumeManager::new();
    vm.refresh(&snapshot(None, None, Some(true)));
    let before = vm;
    assert_eq!(vm.toggle_mic_mute(&snapshot(None, None, Some(false))), Some(false));
    assert_eq!(vm, before, "a known sample leaves the manager untouched");
}

#[test]
fn toggle_without_a_sample_refreshes_first() {
    let mut vm = VolumeManager::new();
    assert_eq!(vm.toggle_mic_mute(&snapshot(Some(5), Some(true), Some(false))), Some(true));
    assert_eq!(vm.curr_mic_mute, Some(false), "the fallback refresh is kept");
    assert_eq!(vm.current_vol, Some(5));
}

#[test]
fn toggle_with_no_state_anywhere_is_recoverable() {
    let mut vm = VolumeManager::new();
    assert_eq!(vm.toggle_mic_mute(&snapshot(None, None, None)), None);
}

// The pre-read refresh emissions.

#[test]
fn before_read_emits_nothing_when_nothing_changed() {
    let mut app = Application::new(&quiet());
    let out = app.before_read(&quiet());
    assert!(out.is_empty());
}

#[test]
fn before_read_emits_one_record_per_changed_signal() {
    let mut app = Application::new(&quiet());
    let out = app.before_read(&snapshot(Some(45), Some(true), Some(false)));
    assert_eq!(
        out,
        vec![
            Record::new(PRE_READ_VOL_SERIAL, RecordData::set_led_meter_no_threshold(45)),
            Record::new(PRE_READ_MUTE_SERIAL, RecordData::SetOutputMuteState(true)),
        ]
    );
}

#[test]
fn before_read_emissions_come_in_fixed_order() {
    let mut app = Application::new(&snapshot(Some(10), Some(false), Some(false)));
    let out = app.before_read(&snapshot(Some(90), Some(true), Some(true)));
    assert_eq!(
        out,
        vec![
            Record::new(PRE_READ_VOL_SERIAL, RecordData::set_led_meter_no_threshold(90)),
            Record::new(PRE_READ_MUTE_SERIAL, RecordData::SetOutputMuteState(true)),
            Record::new(PRE_READ_MIC_MUTE_SERIAL, RecordData::SetInputMuteState(true)),
        ]
    );
}

#[test]
fn before_read_mic_mute_alone() {
    let mut app = Application::new(&quiet());
    let out = app.before_read(&snapshot(Some(30), Some(false), Some(true)));
    assert_eq!(out, vec![Record::new(PRE_READ_MIC_MUTE_SERIAL, RecordData::SetInputMuteState(true))]);
}

// Inbound record dispatch.

#[test]
fn pong_resync_emits_exactly_three_records_in_order() {
    let mut app = Application::new(&quiet());
    let outcome = app.process_record(
        &Record::new(5, RecordData::Pong),
        &snapshot(None, Some(true), Some(false)),
    );
    assert_eq!(
        outcome.emit,
        vec![
            Record::new(6, RecordData::BatteryRequest),
            Record::new(7, RecordData::SetOutputMuteState(true)),
            Record::new(8, RecordData::SetInputMuteState(false)),
        ]
    );
    assert_eq!(outcome.set_input_mute, None);
}

#[test]
fn pong_with_unknown_mute_states_still_requests_battery() {
    let mut app = Application::new(&quiet());
    let outcome = app.process_record(&Record::new(41, RecordData::Pong), &snapshot(None, None, None));
    assert_eq!(outcome.emit, vec![Record::new(42, RecordData::BatteryRequest)]);
}

#[test]
fn battery_response_drives_the_led_meter() {
    let mut app = Application::new(&quiet());
    let outcome = app.process_record(
        &Record::new(10, RecordData::BatteryResponse { percent: 42, voltage: 3871 }),
        &snapshot(None, None, None),
    );
    assert_eq!(
        outcome.emit,
        vec![Record::new(
            11,
            RecordData::SetLedMeter {
                percent: 42,
                warning_threshold: 6,
                danger_threshold: 2,
                invert: false,
                linger_time: 1000,
            },
        )]
    );
    assert_eq!(outcome.set_input_mute, None);
}

#[test]
fn toggle_input_mute_sets_the_backend_not_the_wire() {
    let mut app = Application::new(&snapshot(None, None, Some(false)));
    let outcome = app.process_record(
        &Record::new(1, RecordData::ToggleInputMute),
        &snapshot(None, None, None),
    );
    assert!(outcome.emit.is_empty(), "the change is pushed by the next pre-read refresh");
    assert_eq!(outcome.set_input_mute, Some(true));
}

#[test]
fn other_inbound_variants_are_ignored() {
    let mut app = Application::new(&quiet());
    for data in [
        RecordData::Empty,
        RecordData::Ping,
        RecordData::BatteryRequest,
        RecordData::SetOutputMuteState(true),
        RecordData::SetInputMuteState(false),
        RecordData::SetLedMeter {
            percent: 1,
            warning_threshold: 2,
            danger_threshold: 3,
            invert: false,
            linger_time: 4,
        },
        RecordData::ToggleOutputMute,
    ] {
        let outcome = app.process_record(&Record::new(9, data), &snapshot(None, None, None));
        assert!(outcome.emit.is_empty());
        assert_eq!(outcome.set_input_mute, None);
    }
}

#[test]
fn pong_serials_wrap_at_the_boundary() {
    let mut app = Application::new(&quiet());
    let outcome = app.process_record(
        &Record::new(u32::MAX, RecordData::Pong),
        &snapshot(None, Some(false), None),
    );
    assert_eq!(
        outcome.emit,
        vec![
            Record::new(0, RecordData::BatteryRequest),
            Record::new(1, RecordData::SetOutputMuteState(false)),
        ]
    );
}

// The connection state machine.

#[test]
fn new_application_is_disconnected_without_error() {
    let app = Application::new(&quiet());
    assert_eq!(app.state, ConnState::Disconnected { last_error: None });
}

#[test]
fn successful_connect_enters_connected() {
    let mut app = Application::new(&quiet());
    app.connect(Ok(()));
    assert_eq!(app.state, ConnState::Connected);
}

#[test]
fn failed_connect_captures_the_error() {
    let mut app = Application::new(&quiet());
    app.connect(Err(ConnectError::NoMatchingDevice));
    assert_eq!(
        app.state,
        ConnState::Disconnected {
            last_error: Some(AppError::Connect(ConnectError::NoMatchingDevice)),
        }
    );
}

#[test]
fn write_failure_tears_the_connection_down() {
    let mut app = Application::new(&quiet());
    app.connect(Ok(()));
    let err = WriteError::Transport(TransportError { message: String::from("device detached") });
    app.on_write_failure(err.clone());
    assert_eq!(app.state, ConnState::Disconnected { last_error: Some(AppError::Write(err)) });
}

// The bounded retry policy.

#[test]
fn retry_bound_gives_up_after_101_consecutive_failures() {
    let mut policy = RetryPolicy::new();
    for attempt in 1..=100u32 {
        assert!(!policy.on_failure(), "attempt {attempt} must still retry");
    }
    assert!(policy.on_failure(), "the 101st consecutive failure must give up");
}

#[test]
fn a_success_resets_the_failure_count() {
    let mut policy = RetryPolicy::new();
    for _ in 0..100 {
        assert!(!policy.on_failure());
    }
    policy.on_success();
    assert_eq!(policy.failures, 0);
    for _ in 0..100 {
        assert!(!policy.on_failure());
    }
    assert!(policy.on_failure());
}

#[test]
fn the_retry_bound_is_100() {
    assert_eq!(MAX_CONNECT_FAILURES, 100);
}
