use esp_now_gateway::gateway::device::{Color, EspNowDevice};

fn light(red: u8, green: u8, blue: u8, brightness: u8) -> EspNowDevice {
    EspNowDevice::Light { color: Color { red, green, blue }, brightness }
}

fn parsed(json: &str) -> serde_json::Value {
    serde_json::from_str(json).unwrap()
}

fn after(json: &str) -> EspNowDevice {
    let mut device = light(1, 2, 3, 4);
    device.set_json(json);
    device
}

#[test]
fn bridged_sensors_are_published_with_a_switch_state() {
    for state in 0..=2u8 {
        let text = if state == 1 { "ON" } else { "OFF" };
        let motion = parsed(&EspNowDevice::Motion { state }.as_json());
        assert_eq!(motion.as_object().unwrap().len(), 2);
        assert_eq!(motion["type"], "Motion");
        assert_eq!(motion["state"], text);
        let moving = parsed(&EspNowDevice::Moving { state }.as_json());
        assert_eq!(moving.as_object().unwrap().len(), 2);
        assert_eq!(moving["type"], "Moving");
        assert_eq!(moving["state"], text);
    }
}

#[test]
fn a_bridged_light_is_published_without_a_state() {
    let value = parsed(&light(1, 2, 3, 200).as_json());
    assert_eq!(value.as_object().unwrap().len(), 3);
    assert_eq!(value["type"], "Light");
    assert_eq!(value["brightness"], 200);
    assert_eq!(value["color"].as_object().unwrap().len(), 3);
    assert_eq!(value["color"]["r"], 1);
    assert_eq!(value["color"]["g"], 2);
    assert_eq!(value["color"]["b"], 3);
}

#[test]
fn an_announcement_has_an_empty_text() {
    assert_eq!(EspNowDevice::DeviceType(0xF0).as_json(), "");
}

#[test]
fn a_bridged_light_is_restored_from_its_text() {
    let source = light(0, 255, 7, 99);
    assert_eq!(after(&source.as_json()), source);
}

#[test]
fn a_bridged_light_follows_a_command() {
    assert_eq!(after("{\"brightness\":9}"), light(1, 2, 3, 9));
    assert_eq!(after("{\"brightness\":300}"), light(1, 2, 3, 44));
    assert_eq!(after("{\"color\":{\"r\":7,\"b\":9}}"), light(7, 2, 9, 4));
    assert_eq!(after("{\"state\":\"OFF\"}"), light(1, 2, 3, 4));
    assert_eq!(after("{\"state\":5,\"brightness\":9}"), light(1, 2, 3, 9));
    assert_eq!(after("{\"brightness\":9}"), after("{\"brightness\":9,\"other\":[1]}"));
}

#[test]
fn a_bridged_light_stops_at_an_unreadable_field() {
    assert_eq!(after("{\"brightness\":-1,\"color\":{\"r\":7}}"), light(1, 2, 3, 4));
    assert_eq!(after("{\"brightness\":9,\"color\":\"red\"}"), light(1, 2, 3, 9));
    assert_eq!(after("{\"color\":{\"r\":7,\"g\":\"x\",\"b\":9}}"), light(7, 2, 3, 4));
    assert_eq!(after("no json"), light(1, 2, 3, 4));
    assert_eq!(after("[1]"), light(1, 2, 3, 4));
}

#[test]
fn a_command_changes_no_bridged_sensor() {
    let mut moving = EspNowDevice::Moving { state: 3 };
    moving.set_json("{\"state\":\"ON\",\"brightness\":1}");
    assert_eq!(moving, EspNowDevice::Moving { state: 3 });
    let mut announcement = EspNowDevice::DeviceType(0xF0);
    announcement.set_json("{\"brightness\":1}");
    assert_eq!(announcement, EspNowDevice::DeviceType(0xF0));
}

#[test]
fn a_command_followed_twice_is_followed_once() {
    let json = "{\"brightness\":9,\"color\":{\"g\":8}}";
    let mut device = after(json);
    device.set_json(json);
    assert_eq!(device, after(json));
}
