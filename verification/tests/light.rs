use esp_now_gateway::device::{Color, EspNowDevice};
use esp_now_gateway::light::{ColorCommand, LightCommand, Reading};

fn light(state: u8, brightness: u8, r: u8, g: u8, b: u8) -> EspNowDevice {
    EspNowDevice::Light { state, brightness, color: Color { r, g, b } }
}

fn parsed(json: &str) -> serde_json::Value {
    serde_json::from_str(json).unwrap()
}

fn after(json: &str) -> EspNowDevice {
    let mut device = light(9, 10, 11, 12, 13);
    device.set_json(json);
    device
}

#[test]
fn a_light_is_published_with_a_switch_state() {
    let json = light(1, 200, 3, 4, 5).as_json();
    let value = parsed(&json);
    let fields = value.as_object().unwrap();
    assert_eq!(fields.len(), 4);
    assert_eq!(value["type"], "Light");
    assert_eq!(value["state"], "ON");
    assert_eq!(value["brightness"], 200);
    assert_eq!(value["color"].as_object().unwrap().len(), 3);
    assert_eq!(value["color"]["r"], 3);
    assert_eq!(value["color"]["g"], 4);
    assert_eq!(value["color"]["b"], 5);
}

#[test]
fn sensors_are_published_with_a_switch_state() {
    let motion = EspNowDevice::Motion { state: 0 }.as_json();
    assert!(
        motion == "{\"type\":\"Motion\",\"state\":\"OFF\"}"
            || motion == "{\"state\":\"OFF\",\"type\":\"Motion\"}"
    );
    let moving = parsed(&EspNowDevice::Moving { state: 1 }.as_json());
    assert_eq!(moving["type"], "Moving");
    assert_eq!(moving["state"], "ON");
    assert_eq!(moving.as_object().unwrap().len(), 2);
    assert_eq!(parsed(&EspNowDevice::Moving { state: 2 }.as_json())["state"], "OFF");
}

#[test]
fn a_published_light_is_restored() {
    for state in 0..=1u8 {
        let source = light(state, 77, 1, 255, 0);
        let mut target = light(5, 6, 7, 8, 9);
        target.set_json(&source.as_json());
        assert_eq!(target, source);
    }
    let mut target = light(5, 6, 7, 8, 9);
    target.set_json(&light(3, 1, 1, 1, 1).as_json());
    assert_eq!(target, light(0, 1, 1, 1, 1));
}

#[test]
fn a_full_command_is_followed() {
    assert_eq!(
        after("{\"state\":\"ON\",\"brightness\":7,\"color\":{\"r\":1,\"g\":2,\"b\":3}}"),
        light(1, 7, 1, 2, 3)
    );
    assert_eq!(after("{\"state\":\"off\"}"), light(0, 10, 11, 12, 13));
    assert_eq!(after("{\"color\":{\"g\":1}}"), light(9, 10, 11, 1, 13));
    assert_eq!(after("{}"), light(9, 10, 11, 12, 13));
    assert_eq!(after("{\"unknown\":null}"), light(9, 10, 11, 12, 13));
}

#[test]
fn numbers_are_taken_modulo_256() {
    assert_eq!(after("{\"brightness\":256}"), light(9, 0, 11, 12, 13));
    assert_eq!(after("{\"brightness\":18446744073709551615}"), light(9, 255, 11, 12, 13));
    assert_eq!(after("{\"color\":{\"b\":513}}"), light(9, 10, 11, 12, 1));
}

#[test]
fn a_command_stops_at_the_first_unreadable_field() {
    assert_eq!(
        after("{\"brightness\":1,\"state\":1,\"color\":{\"r\":1}}"),
        light(9, 10, 11, 12, 13)
    );
    assert_eq!(
        after("{\"state\":\"ON\",\"brightness\":-1,\"color\":{\"r\":1}}"),
        light(1, 10, 11, 12, 13)
    );
    assert_eq!(
        after("{\"state\":\"ON\",\"brightness\":1.5,\"color\":{\"r\":1}}"),
        light(1, 10, 11, 12, 13)
    );
    assert_eq!(after("{\"brightness\":1,\"color\":[1,2,3]}"), light(9, 1, 11, 12, 13));
    assert_eq!(after("{\"color\":{\"r\":\"x\",\"g\":1}}"), light(9, 10, 11, 12, 13));
    assert_eq!(after("{\"color\":{\"r\":1,\"g\":null,\"b\":3}}"), light(9, 10, 1, 12, 13));
    assert_eq!(after("{\"color\":{\"r\":1,\"g\":2,\"b\":false}}"), light(9, 10, 1, 2, 13));
}

#[test]
fn text_that_is_no_object_changes_nothing() {
    assert_eq!(after(""), light(9, 10, 11, 12, 13));
    assert_eq!(after("[1]"), light(9, 10, 11, 12, 13));
    assert_eq!(after("{\"state\":\"ON\""), light(9, 10, 11, 12, 13));
    assert_eq!(after("{\"state\":\"ON\"} x"), light(9, 10, 11, 12, 13));
}

#[test]
fn only_lights_follow_commands() {
    let mut device = EspNowDevice::Moving { state: 4 };
    device.set_json("{\"state\":\"ON\"}");
    assert_eq!(device, EspNowDevice::Moving { state: 4 });
    let mut announcement = EspNowDevice::DeviceType(1);
    announcement.set_json("{\"state\":\"ON\"}");
    assert_eq!(announcement, EspNowDevice::DeviceType(1));
}

#[test]
fn commands_are_applied_from_their_readings() {
    let command = LightCommand {
        state: Reading::Absent,
        brightness: Reading::Value(3),
        color: Reading::Value(ColorCommand {
            r: Reading::Value(1),
            g: Reading::Invalid,
            b: Reading::Value(2),
        }),
    };
    let mut device = light(1, 1, 9, 9, 9);
    device.apply(&command);
    assert_eq!(device, light(1, 3, 1, 9, 9));
    device.apply(&command);
    assert_eq!(device, light(1, 3, 1, 9, 9));
}

#[test]
fn a_message_is_read_before_and_after_its_state_is_switched() {
    let mut message = light(1, 2, 3, 4, 5).serialized();
    let color = Reading::Value(ColorCommand {
        r: Reading::Value(3),
        g: Reading::Value(4),
        b: Reading::Value(5),
    });
    let before = LightCommand::read(&message);
    assert_eq!(before.state, Reading::Invalid);
    assert_eq!(before.brightness, Reading::Value(2));
    assert_eq!(before.color, color);
    message.switch_state();
    let after = LightCommand::read(&message);
    assert_eq!(after, LightCommand { state: Reading::Value(1), brightness: Reading::Value(2), color });
}
