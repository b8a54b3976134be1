use keysync::record::{Record, RecordData};
use keysync::router::{outbound_request, Channel, Event, EventRouter, RecvOutcome, SonarRequest};
use keysync::sonar::{
    AudioDevice, ClassicRedirection, DeviceDataFlow, RedirectionId, SteelSeriesEngineClient, SubApp,
};
use keysync::view::KeyboardView;

fn record(serial: u32) -> Record {
    Record::new(serial, RecordData::Ping)
}

// The event channel.

#[test]
fn events_leave_in_the_order_they_were_sent() {
    let mut ch = Channel::new();
    assert!(ch.send(Event::RecordFromDevice(record(1))));
    assert!(ch.send(Event::DeviceConnected));
    assert!(ch.send(Event::RecordFromDevice(record(2))));
    assert_eq!(ch.try_recv(), RecvOutcome::Next(Event::RecordFromDevice(record(1))));
    assert_eq!(ch.try_recv(), RecvOutcome::Next(Event::DeviceConnected));
    assert_eq!(ch.try_recv(), RecvOutcome::Next(Event::RecordFromDevice(record(2))));
    assert_eq!(ch.try_recv(), RecvOutcome::Empty);
}

#[test]
fn an_empty_open_channel_reports_empty() {
    let mut ch = Channel::new();
    assert_eq!(ch.len(), 0);
    assert_eq!(ch.try_recv(), RecvOutcome::Empty);
}

#[test]
fn a_closed_channel_refuses_new_events_but_drains() {
    let mut ch = Channel::new();
    assert!(ch.send(Event::DeviceConnected));
    ch.close();
    assert!(!ch.send(Event::DeviceDisconnected));
    assert_eq!(ch.try_recv(), RecvOutcome::Next(Event::DeviceConnected));
    assert_eq!(ch.try_recv(), RecvOutcome::Closed);
}

#[test]
fn the_router_channels_are_independent() {
    let mut router = EventRouter::new();
    assert!(router.to_gui.send(Event::DeviceConnected));
    assert!(router.to_sonar.send(Event::SonarRequest(SonarRequest::FetchDeviceVolume)));
    assert_eq!(router.to_device.try_recv(), RecvOutcome::Empty);
    assert_eq!(router.to_gui.try_recv(), RecvOutcome::Next(Event::DeviceConnected));
    assert_eq!(
        router.to_sonar.try_recv(),
        RecvOutcome::Next(Event::SonarRequest(SonarRequest::FetchDeviceVolume))
    );
}

#[test]
fn only_record_to_device_events_are_forwarded() {
    let rec = Record::new(3, RecordData::SetOutputMuteState(true));
    assert_eq!(outbound_request(&Event::RecordToDevice(rec)), Some(rec));
    assert_eq!(outbound_request(&Event::RecordFromDevice(rec)), None);
    assert_eq!(outbound_request(&Event::DeviceConnected), None);
    assert_eq!(outbound_request(&Event::SonarRequest(SonarRequest::GetSonarUrl)), None);
}

// The presentation fold.

#[test]
fn a_fresh_view_shows_nothing() {
    let v = KeyboardView::new();
    assert_eq!(v, KeyboardView { bat_pc: 0, set_bat_pc: 0, led_meter_pc: 0, muted: false });
}

#[test]
fn the_view_follows_the_event_stream() {
    let mut v = KeyboardView::new();
    v.process_event(&Event::RecordFromDevice(Record::new(
        1,
        RecordData::BatteryResponse { percent: 64, voltage: 3900 },
    )));
    assert_eq!(v.bat_pc, 64);
    v.process_event(&Event::RecordToDevice(Record::new(2, RecordData::SetOutputMuteState(true))));
    assert!(v.muted);
    v.process_event(&Event::RecordToDevice(Record::new(
        3,
        RecordData::set_led_meter_no_threshold(55),
    )));
    assert_eq!(v.led_meter_pc, 55);
}

#[test]
fn unrelated_events_leave_the_view_alone() {
    let mut v = KeyboardView::new();
    v.process_event(&Event::DeviceConnected);
    v.process_event(&Event::RecordFromDevice(Record::new(1, RecordData::SetOutputMuteState(true))));
    v.process_event(&Event::RecordToDevice(Record::new(
        2,
        RecordData::BatteryResponse { percent: 9, voltage: 1 },
    )));
    assert_eq!(v, KeyboardView::new());
}

// The routing-service data model.

#[test]
fn the_mic_redirection_captures_every_other_renders() {
    let mic = ClassicRedirection { id: Some(RedirectionId::Mic), device_id: None };
    assert_eq!(mic.get_dataflow(), DeviceDataFlow::Capture);
    for id in [RedirectionId::Game, RedirectionId::Chat, RedirectionId::Media, RedirectionId::Aux] {
        let r = ClassicRedirection { id: Some(id), device_id: None };
        assert_eq!(r.get_dataflow(), DeviceDataFlow::Render);
    }
}

#[test]
fn a_redirection_matches_the_device_it_targets() {
    let redirection = ClassicRedirection {
        id: Some(RedirectionId::Game),
        device_id: Some(String::from("dev-7")),
    };
    let device = AudioDevice {
        id: Some(String::from("dev-7")),
        friendly_name: Some(String::from("Speakers")),
        data_flow: Some(DeviceDataFlow::Render),
    };
    let other = AudioDevice {
        id: Some(String::from("dev-8")),
        friendly_name: None,
        data_flow: Some(DeviceDataFlow::Render),
    };
    let anonymous = AudioDevice { id: None, friendly_name: None, data_flow: None };
    assert!(redirection.matches_device(&device));
    assert!(!redirection.matches_device(&other));
    assert!(!redirection.matches_device(&anonymous));
    let untargeted = ClassicRedirection { id: Some(RedirectionId::Game), device_id: None };
    assert!(!untargeted.matches_device(&device));
}

// The control-plane client.

fn subapp(name: &str, url: &str) -> SubApp {
    SubApp {
        name: String::from(name),
        is_enabled: true,
        is_ready: true,
        is_running: true,
        web_server_address: String::from(url),
    }
}

#[test]
fn the_subapp_url_is_looked_up_by_name() {
    let client = SteelSeriesEngineClient::new(String::from("127.0.0.1:6327"));
    assert_eq!(client.gg_encrypted_address, String::from("127.0.0.1:6327"));
    let apps = vec![subapp("gg", "https://127.0.0.1:1"), subapp("sonar", "https://127.0.0.1:2")];
    assert_eq!(
        client.get_subapp_url(&apps, &String::from("sonar")),
        Some(String::from("https://127.0.0.1:2"))
    );
    assert_eq!(client.get_subapp_url(&apps, &String::from("moments")), None);
    assert_eq!(client.get_subapp_url(&Vec::new(), &String::from("sonar")), None);
}

#[test]
fn the_first_subapp_with_the_name_wins() {
    let client = SteelSeriesEngineClient::new(String::new());
    let apps = vec![subapp("sonar", "https://first"), subapp("sonar", "https://second")];
    assert_eq!(client.get_subapp_url(&apps, &String::from("sonar")), Some(String::from("https://first")));
}
