use esp_now_gateway::gateway::bridge::{
    ping_interval_secs, Action, Bridge, Event, Phase, KEEP_ALIVE_SECS,
};
use esp_now_gateway::gateway::device::{Color, DeviceData, EspNowDevice};
use esp_now_gateway::gateway::registry::{
    command_topics, find_by_topic, has_command_suffix, knows, split_report, subscription,
};

fn report(last: u8, state: u8) -> DeviceData {
    DeviceData { mac: [0, 0, 0, 0, 0, last].into(), device: EspNowDevice::Moving { state } }
}

fn listening() -> Bridge {
    let mut bridge = Bridge::new();
    assert!(matches!(bridge.step(Event::LinkChecked(true)), Action::CheckAddress));
    assert!(matches!(bridge.step(Event::AddressChecked(true)), Action::Sleep(1000)));
    assert!(matches!(bridge.step(Event::Elapsed), Action::OpenSocket));
    assert!(matches!(bridge.step(Event::SocketOpened(true)), Action::JoinBroker));
    let (topics, payloads) = announced(bridge.step(Event::BrokerJoined(true)));
    assert!(topics.is_empty());
    assert!(payloads.is_empty());
    bridge
}

fn announced(action: Action) -> (Vec<String>, Vec<(String, String)>) {
    match action {
        Action::Announce { topics, publications } => {
            (topics, publications.into_iter().map(|p| (p.topic, p.payload)).collect())
        }
        _ => panic!("nothing was announced"),
    }
}

fn assert_published(payload: &str, kind: &str, state: &str) {
    let value: serde_json::Value = serde_json::from_str(payload).unwrap();
    assert_eq!(value.as_object().unwrap().len(), 2);
    assert_eq!(value["type"], kind);
    assert_eq!(value["state"], state);
}

fn message(topic: &str) -> Event {
    Event::Received { topic: topic.to_string(), payload: "{}".to_string() }
}

#[test]
fn the_link_and_the_address_are_polled() {
    let mut bridge = Bridge::new();
    assert!(matches!(bridge.step(Event::LinkChecked(false)), Action::Sleep(500)));
    assert!(matches!(bridge.step(Event::Elapsed), Action::CheckLink));
    assert!(matches!(bridge.step(Event::LinkChecked(true)), Action::CheckAddress));
    assert!(matches!(bridge.step(Event::AddressChecked(false)), Action::Sleep(500)));
    assert!(matches!(bridge.step(Event::Elapsed), Action::CheckAddress));
    assert!(matches!(bridge.step(Event::AddressChecked(true)), Action::Sleep(1000)));
}

#[test]
fn new_devices_are_subscribed_to_and_known_ones_published() {
    let mut bridge = listening();
    let (topics, published) = announced(bridge.step(Event::Reported(vec![report(1, 5)])));
    assert_eq!(topics, vec!["00:00:00:00:00:01/set".to_string()]);
    assert!(published.is_empty());
    let again = vec![report(1, 6), report(2, 7)];
    let (topics, published) = announced(bridge.step(Event::Reported(again)));
    assert_eq!(topics, vec!["00:00:00:00:00:02/set".to_string()]);
    assert_eq!(published.len(), 1);
    assert_eq!(published[0].0, "00:00:00:00:00:01/state");
    assert_published(&published[0].1, "Moving", "OFF");
    assert_eq!(bridge.remembered.len(), 2);
    assert_eq!(bridge.remembered[0].device, EspNowDevice::Moving { state: 5 });
}

#[test]
fn a_repeated_report_is_published_in_full() {
    let mut bridge = listening();
    bridge.step(Event::Reported(vec![report(1, 1), report(2, 2)]));
    let repeated = vec![report(1, 1), report(2, 2)];
    let (topics, published) = announced(bridge.step(Event::Reported(repeated)));
    assert!(topics.is_empty());
    assert_eq!(published.len(), 2);
    assert_eq!(published[0].0, "00:00:00:00:00:01/state");
    assert_published(&published[0].1, "Moving", "ON");
    assert_eq!(published[1].0, "00:00:00:00:00:02/state");
    assert_published(&published[1].1, "Moving", "OFF");
    assert_eq!(bridge.remembered.len(), 2);
}

#[test]
fn a_node_that_a_report_names_twice_is_remembered_twice() {
    let mut bridge = listening();
    bridge.step(Event::Reported(vec![report(1, 1), report(1, 2)]));
    assert_eq!(bridge.remembered.len(), 2);
}

#[test]
fn a_command_is_sent_and_answered() {
    let mut bridge = listening();
    bridge.step(Event::Reported(vec![report(1, 1), report(2, 2)]));
    match bridge.step(message("00:00:00:00:00:02/set")) {
        Action::Send(packet) => {
            assert_eq!(packet.address, [0, 0, 0, 0, 0, 2]);
            assert_eq!(packet.data, vec![0x22, 2]);
        }
        _ => panic!("the command was not sent"),
    }
    assert_eq!(bridge.phase, Phase::Delivering(1));
    let (topics, published) = announced(bridge.step(Event::Delivered(true)));
    assert!(topics.is_empty());
    assert_eq!(published.len(), 1);
    assert_eq!(published[0].0, "00:00:00:00:00:02/state");
    assert_published(&published[0].1, "Moving", "OFF");
    assert_eq!(bridge.phase, Phase::Listening);
}

#[test]
fn a_command_to_a_light_is_taken_in_before_it_is_sent() {
    let mut bridge = listening();
    let color = Color { red: 1, green: 2, blue: 3 };
    let light = DeviceData {
        mac: [0, 0, 0, 0, 0, 2].into(),
        device: EspNowDevice::Light { color, brightness: 4 },
    };
    bridge.step(Event::Reported(vec![report(1, 1), light]));
    let command = Event::Received {
        topic: "00:00:00:00:00:02/set".to_string(),
        payload: "{\"brightness\":9,\"color\":{\"g\":8}}".to_string(),
    };
    match bridge.step(command) {
        Action::Send(packet) => {
            assert_eq!(packet.address, [0, 0, 0, 0, 0, 2]);
            assert_eq!(packet.data, vec![0xFE, 1, 8, 3, 9]);
        }
        _ => panic!("the command was not sent"),
    }
    let color = Color { red: 1, green: 8, blue: 3 };
    assert_eq!(bridge.remembered[1].device, EspNowDevice::Light { color, brightness: 9 });
    assert_eq!(bridge.remembered[0].device, EspNowDevice::Moving { state: 1 });
    let (topics, published) = announced(bridge.step(Event::Delivered(true)));
    assert!(topics.is_empty());
    assert_eq!(published.len(), 1);
    assert_eq!(published[0].0, "00:00:00:00:00:02/state");
    let value: serde_json::Value = serde_json::from_str(&published[0].1).unwrap();
    assert_eq!(value["brightness"], 9);
    assert_eq!(value["color"]["g"], 8);
}

#[test]
fn a_command_without_json_sends_the_device_as_it_was() {
    let mut bridge = listening();
    bridge.step(Event::Reported(vec![report(1, 7)]));
    let command = Event::Received {
        topic: "00:00:00:00:00:01/set".to_string(),
        payload: "no json".to_string(),
    };
    match bridge.step(command) {
        Action::Send(packet) => assert_eq!(packet.data, vec![0x22, 7]),
        _ => panic!("the command was not sent"),
    }
}

#[test]
fn messages_for_no_remembered_device_are_passed_over() {
    let mut bridge = listening();
    bridge.step(Event::Reported(vec![report(1, 1)]));
    assert!(matches!(bridge.step(message("00:00:00:00:00:02/set")), Action::Listen));
    assert!(matches!(bridge.step(message("00:00:00:00:00:01/set/set")), Action::Listen));
    assert!(matches!(bridge.step(message("elsewhere/set")), Action::Listen));
    assert_eq!(bridge.phase, Phase::Listening);
}

#[test]
fn an_announcement_is_published_as_an_empty_text() {
    let mut bridge = listening();
    let announcement =
        DeviceData { mac: [0, 0, 0, 0, 0, 1].into(), device: EspNowDevice::DeviceType(0xF0) };
    bridge.step(Event::Reported(vec![announcement]));
    let (topics, published) = announced(bridge.step(Event::Reported(vec![announcement])));
    assert!(topics.is_empty());
    assert_eq!(published, vec![("00:00:00:00:00:01/state".to_string(), "".to_string())]);
}

#[test]
fn the_broker_is_pinged() {
    let mut bridge = listening();
    assert!(matches!(bridge.step(Event::Ticked), Action::Ping));
    assert!(matches!(bridge.step(Event::PingSent(true)), Action::Listen));
    assert_eq!(bridge.phase, Phase::Listening);
    assert_eq!(ping_interval_secs(KEEP_ALIVE_SECS), 55);
    assert!(Event::ReceiveFailed.restarts_ping_timer());
    assert!(message("x/set").restarts_ping_timer());
    assert!(!Event::Ticked.restarts_ping_timer());
}

#[test]
fn failures_reopen_the_connection_and_subscribe_again() {
    let mut bridge = listening();
    bridge.step(Event::Reported(vec![report(1, 1), report(2, 2)]));
    bridge.step(Event::Ticked);
    assert!(matches!(bridge.step(Event::PingSent(false)), Action::Sleep(1000)));
    assert!(matches!(bridge.step(Event::Elapsed), Action::OpenSocket));
    assert!(matches!(bridge.step(Event::SocketOpened(false)), Action::Sleep(1000)));
    bridge.step(Event::Elapsed);
    bridge.step(Event::SocketOpened(true));
    assert!(matches!(bridge.step(Event::BrokerJoined(false)), Action::Sleep(1000)));
    bridge.step(Event::Elapsed);
    bridge.step(Event::SocketOpened(true));
    let (topics, published) = announced(bridge.step(Event::BrokerJoined(true)));
    assert_eq!(
        topics,
        vec!["00:00:00:00:00:01/set".to_string(), "00:00:00:00:00:02/set".to_string()]
    );
    assert!(published.is_empty());
    assert!(matches!(bridge.step(Event::ReceiveFailed), Action::Sleep(1000)));
    assert_eq!(bridge.phase, Phase::SocketPause);
}

#[test]
fn a_lost_command_reopens_the_connection() {
    let mut bridge = listening();
    bridge.step(Event::Reported(vec![report(1, 1)]));
    bridge.step(message("00:00:00:00:00:01/set"));
    assert!(matches!(bridge.step(Event::Delivered(false)), Action::Sleep(1000)));
    assert_eq!(bridge.phase, Phase::SocketPause);
    assert_eq!(bridge.remembered.len(), 1);
}

#[test]
fn reports_are_split_by_node() {
    let remembered = vec![report(1, 0)];
    let (new, updated) = split_report(&remembered, &vec![report(2, 1), report(1, 2), report(3, 3)]);
    assert_eq!(new.len(), 2);
    assert_eq!(new[1].mac.mac[5], 3);
    assert_eq!(updated.len(), 1);
    assert_eq!(updated[0].device, EspNowDevice::Moving { state: 2 });
    assert!(knows(&remembered, &[0, 0, 0, 0, 0, 1].into()));
    assert!(!knows(&remembered, &[0, 0, 0, 0, 0, 2].into()));
}

#[test]
fn the_command_suffix_is_told() {
    assert!(has_command_suffix("a/set"));
    assert!(has_command_suffix("/set"));
    assert!(has_command_suffix("é/set"));
    assert!(!has_command_suffix("a/state"));
    assert!(!has_command_suffix("set"));
    assert!(!has_command_suffix("a/set/"));
}

#[test]
fn the_first_device_with_a_topic_is_found() {
    let devices = vec![report(1, 1), report(2, 2), report(2, 3)];
    assert_eq!(find_by_topic(&devices, &"00:00:00:00:00:02/set".to_string()), Some(1));
    assert_eq!(find_by_topic(&devices, &"00:00:00:00:00:02".to_string()), None);
}

#[test]
fn a_subscription_lists_the_topics() {
    let topics = command_topics(&vec![report(1, 1), report(2, 2)]);
    let list = subscription(&topics).unwrap();
    assert_eq!(list.len(), 2);
    assert_eq!(list[0], "00:00:00:00:00:01/set");
    assert_eq!(list[1], "00:00:00:00:00:02/set");
    assert!(subscription(&Vec::new()).is_none());
    let many: Vec<DeviceData> = (0..64u8).map(|i| report(i, 0)).collect();
    let topics = command_topics(&many);
    assert_eq!(subscription(&topics).unwrap().len(), 64);
}
