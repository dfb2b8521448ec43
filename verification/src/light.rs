//! The JSON form of a device: the state that is published, and the commands that set a light.
use crate::device::{Color, EspNowDevice};
use crate::json::{
    is_shallow_message, number_value, object_contents, object_get, object_value, parsed_message,
    text_value, value_contents, Json, Message,
};
use vstd::prelude::*;

verus! {

/// What a message says of one field: nothing, something that cannot be read, or a value.
#[derive(Debug, PartialEq, Eq, Structural)]
pub enum Reading<T> {
    Absent,
    Invalid,
    Value(T),
}

/// What a message says of the components of a colour.
#[derive(Debug, PartialEq, Eq, Structural)]
pub struct ColorCommand {
    pub r: Reading<u8>,
    pub g: Reading<u8>,
    pub b: Reading<u8>,
}

/// What a message says of a light.
#[derive(Debug, PartialEq, Eq, Structural)]
pub struct LightCommand {
    pub state: Reading<u8>,
    pub brightness: Reading<u8>,
    pub color: Reading<ColorCommand>,
}

/// The state that a switch text stands for: one for `ON`, zero for any other text.
pub open spec fn switch_state(text: Seq<char>) -> u8 {
    if text == "ON"@ {
        1
    } else {
        0
    }
}

/// The switch text of a state: `ON` for one, `OFF` for any other number.
pub open spec fn switch_text(state: u64) -> Seq<char> {
    if state == 1 {
        "ON"@
    } else {
        "OFF"@
    }
}

/// What a field says of a state: a text is read as a switch text.
pub open spec fn state_reading(fields: Map<Seq<char>, Json>) -> Reading<u8> {
    if !fields.contains_key("state"@) {
        Reading::Absent
    } else {
        match fields["state"@] {
            Json::Text(text) => Reading::Value(switch_state(text)),
            _ => Reading::Invalid,
        }
    }
}

/// What a field says of a byte: a natural number is read modulo 256.
pub open spec fn byte_reading(fields: Map<Seq<char>, Json>, name: Seq<char>) -> Reading<u8> {
    if !fields.contains_key(name) {
        Reading::Absent
    } else {
        match fields[name].unsigned() {
            Some(number) => Reading::Value((number % 256) as u8),
            None => Reading::Invalid,
        }
    }
}

/// What a message says of a colour: an object is read component by component.
pub open spec fn color_reading(fields: Map<Seq<char>, Json>) -> Reading<ColorCommand> {
    if !fields.contains_key("color"@) {
        Reading::Absent
    } else {
        match fields["color"@] {
            Json::Object(components) => Reading::Value(
                ColorCommand {
                    r: byte_reading(components, "r"@),
                    g: byte_reading(components, "g"@),
                    b: byte_reading(components, "b"@),
                },
            ),
            _ => Reading::Invalid,
        }
    }
}

/// What a message says of a light.
pub open spec fn command_in(fields: Map<Seq<char>, Json>) -> LightCommand {
    LightCommand {
        state: state_reading(fields),
        brightness: byte_reading(fields, "brightness"@),
        color: color_reading(fields),
    }
}

/// A byte after a command: the value, where there is one and the command is still followed.
pub open spec fn updated_byte(byte: u8, reading: Reading<u8>, followed: bool) -> u8 {
    match reading {
        Reading::Value(value) => if followed {
            value
        } else {
            byte
        },
        _ => byte,
    }
}

/// A colour after a command. Components are set in the order red, green, blue, up to the
/// first one that cannot be read.
pub open spec fn updated_color(color: Color, command: ColorCommand) -> Color {
    Color {
        r: updated_byte(color.r, command.r, true),
        g: updated_byte(color.g, command.g, !(command.r is Invalid)),
        b: updated_byte(color.b, command.b, !(command.r is Invalid) && !(command.g is Invalid)),
    }
}

/// A device after a command. Only a light follows it: state, brightness and colour are set in
/// this order, up to the first one that cannot be read.
pub open spec fn commanded(device: EspNowDevice, command: LightCommand) -> EspNowDevice {
    match device {
        EspNowDevice::Light { state, brightness, color } => EspNowDevice::Light {
            state: updated_byte(state, command.state, true),
            brightness: updated_byte(brightness, command.brightness, !(command.state is Invalid)),
            color: match command.color {
                Reading::Value(components) => if command.state is Invalid
                    || command.brightness is Invalid {
                    color
                } else {
                    updated_color(color, components)
                },
                _ => color,
            },
        },
        _ => device,
    }
}

/// Reads a byte field of an object.
fn read_component(
    components: &serde_json::Map<String, serde_json::Value>,
    name: &str,
) -> (reading: Reading<u8>)
    ensures
        reading == byte_reading(object_contents(*components), name@),
{
    match object_get(components, name) {
        None => Reading::Absent,
        Some(value) => read_byte(value),
    }
}

/// Reads a natural number modulo 256.
fn read_byte(value: &serde_json::Value) -> (reading: Reading<u8>)
    ensures
        reading == (match value_contents(*value).unsigned() {
            Some(number) => Reading::Value((number % 256) as u8),
            None => Reading::Invalid,
        }),
{
    match value.as_u64() {
        Some(number) => Reading::Value((number % 256) as u8),
        None => Reading::Invalid,
    }
}

impl LightCommand {
    /// Reads what a message says of a light.
    pub fn read(message: &Message) -> (command: LightCommand)
        ensures
            command == command_in(message@),
    {
        let state = match message.get("state") {
            None => Reading::Absent,
            Some(value) => match value.as_str() {
                Some(text) => Reading::Value(
                    if text.to_owned() == "ON".to_owned() {
                        1u8
                    } else {
                        0u8
                    },
                ),
                None => Reading::Invalid,
            },
        };
        let brightness = match message.get("brightness") {
            None => Reading::Absent,
            Some(value) => read_byte(value),
        };
        let color = match message.get("color") {
            None => Reading::Absent,
            Some(value) => match value.as_object() {
                Some(components) => Reading::Value(
                    ColorCommand {
                        r: read_component(components, "r"),
                        g: read_component(components, "g"),
                        b: read_component(components, "b"),
                    },
                ),
                None => Reading::Invalid,
            },
        };
        LightCommand { state, brightness, color }
    }
}

impl ColorCommand {
    /// Follows what the command says of the components of a colour.
    pub fn apply(&self, color: &mut Color)
        ensures
            *final(color) == updated_color(*old(color), *self),
    {
        match &self.r {
            Reading::Absent => {},
            Reading::Invalid => {
                return;
            },
            Reading::Value(value) => {
                color.r = *value;
            },
        }
        match &self.g {
            Reading::Absent => {},
            Reading::Invalid => {
                return;
            },
            Reading::Value(value) => {
                color.g = *value;
            },
        }
        match &self.b {
            Reading::Absent => {},
            Reading::Invalid => {
                return;
            },
            Reading::Value(value) => {
                color.b = *value;
            },
        }
    }
}

impl EspNowDevice {
    /// Follows a command.
    pub fn apply(&mut self, command: &LightCommand)
        ensures
            *final(self) == commanded(*old(self), *command),
    {
        match self {
            EspNowDevice::Light { state, brightness, color } => {
                match &command.state {
                    Reading::Absent => {},
                    Reading::Invalid => {
                        return;
                    },
                    Reading::Value(value) => {
                        *state = *value;
                    },
                }
                match &command.brightness {
                    Reading::Absent => {},
                    Reading::Invalid => {
                        return;
                    },
                    Reading::Value(value) => {
                        *brightness = *value;
                    },
                }
                match &command.color {
                    Reading::Absent => {},
                    Reading::Invalid => {
                        return;
                    },
                    Reading::Value(components) => {
                        components.apply(color);
                    },
                }
            },
            _ => {},
        }
    }

    /// Follows the command that a JSON text holds. A text that is no JSON object changes
    /// nothing.
    pub fn set_json(&mut self, json: &str)
        ensures
            *final(self) == (match parsed_message(json@) {
                Some(fields) => commanded(*old(self), command_in(fields)),
                None => *old(self),
            }),
    {
        match Message::from_json(json) {
            Ok(message) => {
                let command = LightCommand::read(&message);
                self.apply(&command);
            },
            Err(_) => {},
        }
    }
}

/// The JSON object of a colour.
pub open spec fn color_fields(color: Color) -> Map<Seq<char>, Json> {
    map![
        "r"@ => Json::Number(Some(color.r as u64)),
        "g"@ => Json::Number(Some(color.g as u64)),
        "b"@ => Json::Number(Some(color.b as u64)),
    ]
}

/// The JSON object of a device with the given state field: the kind of the device under
/// `type`, and its fields under their names. A device type announcement has no JSON form.
pub open spec fn device_fields(device: EspNowDevice, state: Json) -> Map<Seq<char>, Json> {
    match device {
        EspNowDevice::DeviceType(_) => Map::empty(),
        EspNowDevice::Motion { .. } => map![
            "type"@ => Json::Text("Motion"@),
            "state"@ => state,
        ],
        EspNowDevice::Moving { .. } => map![
            "type"@ => Json::Text("Moving"@),
            "state"@ => state,
        ],
        EspNowDevice::Light { brightness, color, .. } => map![
            "type"@ => Json::Text("Light"@),
            "state"@ => state,
            "brightness"@ => Json::Number(Some(brightness as u64)),
            "color"@ => Json::Object(color_fields(color)),
        ],
    }
}

/// The state of a device; zero for a device type announcement, which has none.
pub open spec fn state_of(device: EspNowDevice) -> u8 {
    match device {
        EspNowDevice::DeviceType(_) => 0,
        EspNowDevice::Motion { state } => state,
        EspNowDevice::Moving { state } => state,
        EspNowDevice::Light { state, .. } => state,
    }
}

/// The JSON object of a device, with its state as a number.
pub open spec fn serialized_fields(device: EspNowDevice) -> Map<Seq<char>, Json> {
    device_fields(device, Json::Number(Some(state_of(device) as u64)))
}

/// The JSON object that is published of a device: its state is a switch text.
pub open spec fn published_fields(device: EspNowDevice) -> Map<Seq<char>, Json> {
    device_fields(device, Json::Text(switch_text(state_of(device) as u64)))
}

/// A message after its numeric state, if it has one, has become a switch text.
pub open spec fn switched(fields: Map<Seq<char>, Json>) -> Map<Seq<char>, Json> {
    if fields.contains_key("state"@) {
        fields.insert("state"@, Json::Text(switch_text(fields["state"@].unsigned().unwrap())))
    } else {
        fields
    }
}

/// The names of the fields are different from each other.
pub proof fn lemma_field_names()
    ensures
        "type"@ != "state"@,
        "type"@ != "brightness"@,
        "type"@ != "color"@,
        "state"@ != "brightness"@,
        "state"@ != "color"@,
        "brightness"@ != "color"@,
        "r"@ != "g"@,
        "r"@ != "b"@,
        "g"@ != "b"@,
{
    reveal_strlit("type");
    reveal_strlit("state");
    reveal_strlit("brightness");
    reveal_strlit("color");
    reveal_strlit("r");
    reveal_strlit("g");
    reveal_strlit("b");
    assert("type"@[0] == 't');
    assert("state"@[0] == 's');
    assert("brightness"@[0] == 'b');
    assert("color"@[0] == 'c');
    assert("r"@[0] == 'r');
    assert("g"@[0] == 'g');
    assert("b"@[0] == 'b');
}

/// The JSON object of a device holds nothing deeper than an object of numbers.
proof fn lemma_device_fields_shallow(device: EspNowDevice, state: Json)
    requires
        state.is_scalar(),
    ensures
        is_shallow_message(device_fields(device, state)),
{
    if let EspNowDevice::Light { color, .. } = device {
        assert(Json::Object(color_fields(color)).is_shallow());
    }
}

/// Turning the state of a serialised device into a switch text gives what is published of it.
proof fn lemma_switched_is_published(device: EspNowDevice)
    requires
        !(device is DeviceType),
    ensures
        switched(serialized_fields(device)) == published_fields(device),
{
    lemma_field_names();
    assert(switched(serialized_fields(device)) =~= published_fields(device));
}

impl Message {
    /// Turns the numeric state of a message, if it has one, into a switch text.
    pub fn switch_state(&mut self)
        requires
            old(self)@.contains_key("state"@) ==> old(self)@["state"@].unsigned() is Some,
        ensures
            final(self)@ == switched(old(self)@),
    {
        if let Some(state) = self.remove("state") {
            let text = if state.as_u64().unwrap() == 1 {
                text_value("ON")
            } else {
                text_value("OFF")
            };
            self.insert("state".to_owned(), text);
            assert(self@ =~= switched(old(self)@));
        } else {
            assert(self@ =~= old(self)@);
        }
    }
}

/// The JSON value of a colour.
pub(crate) fn serialized_color(color: &Color) -> (value: serde_json::Value)
    ensures
        value_contents(value) == Json::Object(color_fields(*color)),
{
    let mut components: serde_json::Map<String, serde_json::Value> = serde_json::Map::new();
    components.insert("r".to_owned(), number_value(color.r));
    components.insert("g".to_owned(), number_value(color.g));
    components.insert("b".to_owned(), number_value(color.b));
    object_value(components)
}

impl EspNowDevice {
    /// The message that the device serialises to: its kind under `type`, then its fields.
    pub fn serialized(&self) -> (message: Message)
        requires
            !(*self is DeviceType),
        ensures
            message@ == serialized_fields(*self),
    {
        let mut message = Message::new();
        match self {
            EspNowDevice::DeviceType(_) => {},
            EspNowDevice::Motion { state } => {
                message.insert("type".to_owned(), text_value("Motion"));
                message.insert("state".to_owned(), number_value(*state));
            },
            EspNowDevice::Moving { state } => {
                message.insert("type".to_owned(), text_value("Moving"));
                message.insert("state".to_owned(), number_value(*state));
            },
            EspNowDevice::Light { state, brightness, color } => {
                message.insert("type".to_owned(), text_value("Light"));
                message.insert("state".to_owned(), number_value(*state));
                message.insert("brightness".to_owned(), number_value(*brightness));
                message.insert("color".to_owned(), serialized_color(color));
            },
        }
        message
    }

    /// The JSON text that is published of the device. In what order its fields come is left
    /// open.
    pub fn as_json(&self) -> (json: String)
        requires
            !(*self is DeviceType),
        ensures
            parsed_message(json@) == Some(published_fields(*self)),
    {
        let serialized = self.serialized().to_json().unwrap();
        proof {
            lemma_field_names();
            lemma_device_fields_shallow(*self, Json::Number(Some(state_of(*self) as u64)));
            lemma_device_fields_shallow(
                *self,
                Json::Text(switch_text(state_of(*self) as u64)),
            );
            lemma_switched_is_published(*self);
        }
        let mut message = match Message::from_json(serialized.as_str()) {
            Ok(message) => message,
            Err(_) => {
                return "{}".to_owned();
            },
        };
        message.switch_state();
        message.to_json().unwrap()
    }
}

/// Law: a light that is sent the JSON text published of another light takes over its
/// brightness and colour, and its state as on or off; so a light that is on or off is restored
/// from the text published of it.
pub proof fn law_json_round_trip(source: EspNowDevice, target: EspNowDevice)
    requires
        source is Light,
        target is Light,
    ensures
        commanded(target, command_in(published_fields(source))) == (EspNowDevice::Light {
            state: if state_of(source) == 1 {
                1
            } else {
                0
            },
            brightness: source->brightness,
            color: source->color,
        }),
        state_of(source) <= 1 ==> commanded(target, command_in(published_fields(source)))
            == source,
{
    lemma_field_names();
    reveal_strlit("ON");
    reveal_strlit("OFF");
    assert("ON"@.len() == 2);
    assert("OFF"@.len() == 3);
}

/// Law: following a command twice is following it once.
pub proof fn law_command_idempotent(device: EspNowDevice, command: LightCommand)
    ensures
        commanded(commanded(device, command), command) == commanded(device, command),
{
}

/// Law: a command changes no device but a light, and keeps a light a light.
pub proof fn law_command_keeps_kind(device: EspNowDevice, command: LightCommand)
    ensures
        !(device is Light) ==> commanded(device, command) == device,
        device is Light ==> commanded(device, command) is Light,
{
}

/// Law: what a command does not mention stays as it was.
pub proof fn law_unmentioned_fields_stay(device: EspNowDevice, command: LightCommand)
    requires
        device is Light,
    ensures
        command.state is Absent ==> state_of(commanded(device, command)) == state_of(device),
        command.brightness is Absent ==> commanded(device, command)->brightness
            == device->brightness,
        command.color is Absent ==> commanded(device, command)->color == device->color,
{
}

/// Law: nothing that comes after a field that cannot be read is followed.
pub proof fn law_command_stops_at_unreadable_field(device: EspNowDevice, command: LightCommand)
    requires
        device is Light,
    ensures
        command.state is Invalid ==> commanded(device, command) == device,
        command.brightness is Invalid ==> {
            &&& commanded(device, command)->brightness == device->brightness
            &&& commanded(device, command)->color == device->color
        },
        command.color is Invalid ==> commanded(device, command)->color == device->color,
{
}

/// Law: a colour after a command. Each component that the command gives a value for, and that no
/// unreadable one precedes, has that value; every other one is as it was.
pub proof fn law_color_follows_command(color: Color, command: ColorCommand)
    ensures
        ({
            let after = updated_color(color, command);
            &&& command.r matches Reading::Value(value) ==> after.r == value
            &&& !(command.r is Value) ==> after.r == color.r
            &&& command.g matches Reading::Value(value) ==> !(command.r is Invalid) ==> after.g
                == value
            &&& !(command.g is Value) || command.r is Invalid ==> after.g == color.g
            &&& command.b matches Reading::Value(value) ==> !(command.r is Invalid) && !(
            command.g is Invalid) ==> after.b == value
            &&& !(command.b is Value) || command.r is Invalid || command.g is Invalid ==> after.b
                == color.b
        }),
{
}

/// Law: a light after a command. What the command gives a value for, and what no unreadable field
/// precedes, has that value, whatever the command says or does not say of the rest; everything
/// else is as it was.
pub proof fn law_light_follows_command(device: EspNowDevice, command: LightCommand)
    requires
        device is Light,
    ensures
        commanded(device, command) is Light,
        command.state matches Reading::Value(value) ==> commanded(device, command)->Light_state
            == value,
        !(command.state is Value) ==> commanded(device, command)->Light_state
            == device->Light_state,
        command.brightness matches Reading::Value(value) ==> !(command.state is Invalid)
            ==> commanded(device, command)->brightness == value,
        !(command.brightness is Value) || command.state is Invalid ==> commanded(
            device,
            command,
        )->brightness == device->brightness,
        command.color matches Reading::Value(color) ==> !(command.state is Invalid) && !(
        command.brightness is Invalid) ==> {
            let after = commanded(device, command)->color;
            &&& color.r matches Reading::Value(value) ==> after.r == value
            &&& !(color.r is Value) ==> after.r == device->color.r
            &&& color.g matches Reading::Value(value) ==> !(color.r is Invalid) ==> after.g == value
            &&& !(color.g is Value) || color.r is Invalid ==> after.g == device->color.g
            &&& color.b matches Reading::Value(value) ==> !(color.r is Invalid) && !(
            color.g is Invalid) ==> after.b == value
            &&& !(color.b is Value) || color.r is Invalid || color.g is Invalid ==> after.b
                == device->color.b
        },
        !(command.color is Value) || command.state is Invalid || command.brightness is Invalid
            ==> commanded(device, command)->color == device->color,
{
}

/// Law: what a field says of a byte. A natural number gives its remainder by 256, any other value
/// cannot be read, and a field that is not there says nothing.
pub proof fn law_byte_is_read(fields: Map<Seq<char>, Json>, name: Seq<char>)
    ensures
        byte_reading(fields, name) is Absent <==> !fields.contains_key(name),
        fields.contains_key(name) ==> (byte_reading(fields, name) is Value <==> exists|number: u64|
            fields[name] == Json::Number(Some(number))),
        fields.contains_key(name) ==> (fields[name] matches Json::Number(Some(number)) ==> {
            &&& byte_reading(fields, name) matches Reading::Value(value)
            &&& value <= number
            &&& (number - value) % 256 == 0
        }),
{
}

/// Law: what a message says of a light. Its state is on for the text `ON` and off for any other
/// text; brightness and the components of the colour are numbers, read modulo 256; a value of
/// another sort cannot be read, and a field that is not there says nothing.
pub proof fn law_message_is_read(fields: Map<Seq<char>, Json>)
    ensures
        command_in(fields).state is Absent <==> !fields.contains_key("state"@),
        fields.contains_key("state"@) ==> {
            &&& command_in(fields).state is Value <==> fields["state"@] is Text
            &&& fields["state"@] == Json::Text(seq!['O', 'N']) ==> command_in(fields).state
                == Reading::Value(1u8)
            &&& fields["state"@] is Text && fields["state"@] != Json::Text(seq!['O', 'N'])
                ==> command_in(fields).state == Reading::Value(0u8)
        },
        command_in(fields).brightness is Absent <==> !fields.contains_key("brightness"@),
        fields.contains_key("brightness"@) ==> {
            &&& fields["brightness"@] matches Json::Number(Some(number)) ==> {
                &&& command_in(fields).brightness matches Reading::Value(value)
                &&& value <= number
                &&& (number - value) % 256 == 0
            }
            &&& command_in(fields).brightness is Value ==> fields["brightness"@] is Number
                && fields["brightness"@]->Number_0 is Some
        },
        command_in(fields).color is Absent <==> !fields.contains_key("color"@),
        fields.contains_key("color"@) ==> {
            &&& command_in(fields).color is Value <==> fields["color"@] is Object
            &&& fields["color"@] matches Json::Object(components) ==> {
                let color = command_in(fields).color->Value_0;
                &&& color.r == byte_reading(components, seq!['r'])
                &&& color.g == byte_reading(components, seq!['g'])
                &&& color.b == byte_reading(components, seq!['b'])
            }
        },
{
    reveal_strlit("ON");
    reveal_strlit("r");
    reveal_strlit("g");
    reveal_strlit("b");
    assert("ON"@ =~= seq!['O', 'N']);
    assert("r"@ =~= seq!['r']);
    assert("g"@ =~= seq!['g']);
    assert("b"@ =~= seq!['b']);
}

/// Law: a message whose state is a text switches a light on if the text is `ON` and off if it is
/// not, whatever else the message says.
pub proof fn law_light_is_switched(
    device: EspNowDevice,
    fields: Map<Seq<char>, Json>,
    text: Seq<char>,
)
    requires
        device is Light,
        fields.contains_key("state"@),
        fields["state"@] == Json::Text(text),
    ensures
        commanded(device, command_in(fields))->Light_state == 1 <==> text == seq!['O', 'N'],
        commanded(device, command_in(fields))->Light_state == 0 <==> text != seq!['O', 'N'],
{
    law_message_is_read(fields);
    law_light_follows_command(device, command_in(fields));
}

/// Law: what is published of a sensor has two fields, its kind and the text `ON` if its state is
/// one and `OFF` if it is any other.
pub proof fn law_sensor_is_published(state: u8)
    ensures
        ({
            let motion = published_fields(EspNowDevice::Motion { state });
            let moving = published_fields(EspNowDevice::Moving { state });
            &&& motion.dom() == set!["type"@, "state"@]
            &&& motion["type"@] == Json::Text(seq!['M', 'o', 't', 'i', 'o', 'n'])
            &&& state == 1 ==> motion["state"@] == Json::Text(seq!['O', 'N'])
            &&& state != 1 ==> motion["state"@] == Json::Text(seq!['O', 'F', 'F'])
            &&& moving.dom() == set!["type"@, "state"@]
            &&& moving["type"@] == Json::Text(seq!['M', 'o', 'v', 'i', 'n', 'g'])
            &&& state == 1 ==> moving["state"@] == Json::Text(seq!['O', 'N'])
            &&& state != 1 ==> moving["state"@] == Json::Text(seq!['O', 'F', 'F'])
        }),
{
    lemma_field_names();
    reveal_strlit("ON");
    reveal_strlit("OFF");
    reveal_strlit("Motion");
    reveal_strlit("Moving");
    assert("ON"@ =~= seq!['O', 'N']);
    assert("OFF"@ =~= seq!['O', 'F', 'F']);
    assert("Motion"@ =~= seq!['M', 'o', 't', 'i', 'o', 'n']);
    assert("Moving"@ =~= seq!['M', 'o', 'v', 'i', 'n', 'g']);
}

/// Law: two sensors of one kind are published alike if and only if both or neither of them have
/// the state one, and two sensors of different kinds never are.
pub proof fn law_sensors_published_alike(left: u8, right: u8)
    ensures
        published_fields(EspNowDevice::Motion { state: left }) == published_fields(
            EspNowDevice::Motion { state: right },
        ) <==> (left == 1 <==> right == 1),
        published_fields(EspNowDevice::Moving { state: left }) == published_fields(
            EspNowDevice::Moving { state: right },
        ) <==> (left == 1 <==> right == 1),
        published_fields(EspNowDevice::Motion { state: left }) != published_fields(
            EspNowDevice::Moving { state: right },
        ),
{
    law_sensor_is_published(left);
    law_sensor_is_published(right);
    let on = seq!['O', 'N'];
    let off = seq!['O', 'F', 'F'];
    let motion = seq!['M', 'o', 't', 'i', 'o', 'n'];
    let moving = seq!['M', 'o', 'v', 'i', 'n', 'g'];
    assert(on.len() != off.len());
    assert(motion[2] != moving[2]);
    assert(Json::Text(on)->Text_0 != Json::Text(off)->Text_0);
    assert(Json::Text(motion)->Text_0 != Json::Text(moving)->Text_0);
    if left == 1 <==> right == 1 {
        assert(published_fields(EspNowDevice::Motion { state: left }) =~= published_fields(
            EspNowDevice::Motion { state: right },
        ));
        assert(published_fields(EspNowDevice::Moving { state: left }) =~= published_fields(
            EspNowDevice::Moving { state: right },
        ));
    }
}

/// Law: what is published of a light has four fields: its kind, the text `ON` if its state is one
/// and `OFF` if it is any other, its brightness, and an object of the three components of its
/// colour.
pub proof fn law_light_is_published(device: EspNowDevice)
    requires
        device is Light,
    ensures
        ({
            let light = published_fields(device);
            &&& light.dom() == set!["type"@, "state"@, "brightness"@, "color"@]
            &&& light["type"@] == Json::Text(seq!['L', 'i', 'g', 'h', 't'])
            &&& device->Light_state == 1 ==> light["state"@] == Json::Text(seq!['O', 'N'])
            &&& device->Light_state != 1 ==> light["state"@] == Json::Text(seq!['O', 'F', 'F'])
            &&& light["brightness"@] == Json::Number(Some(device->brightness as u64))
            &&& light["color"@] matches Json::Object(color)
            &&& color.dom() == set!["r"@, "g"@, "b"@]
            &&& color["r"@] == Json::Number(Some(device->color.r as u64))
            &&& color["g"@] == Json::Number(Some(device->color.g as u64))
            &&& color["b"@] == Json::Number(Some(device->color.b as u64))
        }),
{
    lemma_field_names();
    reveal_strlit("ON");
    reveal_strlit("OFF");
    reveal_strlit("Light");
    assert("ON"@ =~= seq!['O', 'N']);
    assert("OFF"@ =~= seq!['O', 'F', 'F']);
    assert("Light"@ =~= seq!['L', 'i', 'g', 'h', 't']);
    assert(published_fields(device).dom() =~= set!["type"@, "state"@, "brightness"@, "color"@]);
    assert(color_fields(device->color).dom() =~= set!["r"@, "g"@, "b"@]);
}

/// Law: a device serialises to what is published of it, but for its state, which is the number
/// itself.
pub proof fn law_device_is_serialized(device: EspNowDevice)
    requires
        !(device is DeviceType),
    ensures
        serialized_fields(device).dom() == published_fields(device).dom(),
        forall|name: Seq<char>|
            name != "state"@ && published_fields(device).contains_key(name) ==> (
            #[trigger] serialized_fields(device)[name]) == published_fields(device)[name],
        device matches EspNowDevice::Motion { state } ==> serialized_fields(device)["state"@]
            == Json::Number(Some(state as u64)),
        device matches EspNowDevice::Moving { state } ==> serialized_fields(device)["state"@]
            == Json::Number(Some(state as u64)),
        device matches EspNowDevice::Light { state, .. } ==> serialized_fields(device)["state"@]
            == Json::Number(Some(state as u64)),
{
    lemma_field_names();
    assert(serialized_fields(device).dom() =~= published_fields(device).dom());
}

/// Law: switching the state of a message changes no other field, adds none and takes none away; a
/// state of one becomes the text `ON`, and any other number the text `OFF`.
pub proof fn law_state_is_switched(fields: Map<Seq<char>, Json>)
    ensures
        switched(fields).dom() == fields.dom(),
        forall|name: Seq<char>|
            name != "state"@ && fields.contains_key(name) ==> (#[trigger] switched(fields)[name])
                == fields[name],
        fields.contains_key("state"@) ==> (fields["state"@] matches Json::Number(Some(state)) ==> {
            &&& state == 1 ==> switched(fields)["state"@] == Json::Text(seq!['O', 'N'])
            &&& state != 1 ==> switched(fields)["state"@] == Json::Text(seq!['O', 'F', 'F'])
        }),
{
    reveal_strlit("ON");
    reveal_strlit("OFF");
    assert("ON"@ =~= seq!['O', 'N']);
    assert("OFF"@ =~= seq!['O', 'F', 'F']);
    assert(switched(fields).dom() =~= fields.dom());
}

/// Law: following the command of a text. A text that is no JSON object changes nothing, and no
/// device but a light changes. A light whose text gives a state is switched on by `ON` and off by
/// any other text; what of a light the command cannot be read for, or does not mention, stays.
pub proof fn law_set_json()
    ensures
        forall|device: &mut EspNowDevice, json: &str|
            #[trigger] call_ensures(EspNowDevice::set_json, (device, json), ()) ==> {
                let before = *device;
                let after = *final(device);
                &&& parsed_message(json@) is None ==> after == before
                &&& !(before is Light) ==> after == before
                &&& before is Light ==> after is Light
                &&& before is Light ==> (parsed_message(json@) matches Some(fields) ==> {
                    &&& fields.contains_key("state"@) && fields["state"@] == Json::Text(
                        seq!['O', 'N'],
                    ) ==> after->Light_state == 1
                    &&& fields.contains_key("state"@) && fields["state"@] is Text && fields["state"@]
                        != Json::Text(seq!['O', 'N']) ==> after->Light_state == 0
                    &&& fields.contains_key("state"@) && !(fields["state"@] is Text) ==> after
                        == before
                    &&& !fields.contains_key("state"@) ==> after->Light_state
                        == before->Light_state
                    &&& after == commanded(before, command_in(fields))
                })
            },
        forall|device: &mut EspNowDevice, command: &LightCommand|
            #[trigger] call_ensures(EspNowDevice::apply, (device, command), ()) ==> {
                let before = *device;
                let after = *final(device);
                &&& !(before is Light) ==> after == before
                &&& before is Light ==> (command.state matches Reading::Value(value)
                    ==> after->Light_state == value)
                &&& after == commanded(before, *command)
            },
        forall|color: &mut Color, command: &ColorCommand|
            #[trigger] call_ensures(ColorCommand::apply, (command, color), ()) ==> {
                let before = *color;
                let after = *final(color);
                &&& command.r matches Reading::Value(value) ==> after.r == value
                &&& command.r is Invalid ==> after == before
                &&& after == updated_color(before, *command)
            },
{
    assert forall|device: &mut EspNowDevice, json: &str|
        #[trigger] call_ensures(EspNowDevice::set_json, (device, json), ()) implies {
        let before = *device;
        let after = *final(device);
        before is Light ==> (parsed_message(json@) matches Some(fields) ==> {
            &&& fields.contains_key("state"@) && fields["state"@] == Json::Text(seq!['O', 'N'])
                ==> after->Light_state == 1
            &&& fields.contains_key("state"@) && fields["state"@] is Text && fields["state"@]
                != Json::Text(seq!['O', 'N']) ==> after->Light_state == 0
        })
    } by {
        if let Some(fields) = parsed_message(json@) {
            law_message_is_read(fields);
        }
    }
}

/// Law: the text that is given of a sensor is a JSON object of two fields, its kind and `ON` if
/// its state is one and `OFF` if it is any other; and that of a light has its brightness and the
/// components of its colour too.
pub proof fn law_as_json(device: EspNowDevice, json: String)
    requires
        !(device is DeviceType),
        call_ensures(EspNowDevice::as_json, (&device,), json),
    ensures
        ({
            let state = match device {
                EspNowDevice::DeviceType(_) => 0u8,
                EspNowDevice::Motion { state } => state,
                EspNowDevice::Moving { state } => state,
                EspNowDevice::Light { state, .. } => state,
            };
            &&& parsed_message(json@) matches Some(fields)
            &&& fields.contains_key("type"@)
            &&& fields.contains_key("state"@)
            &&& device is Motion ==> fields["type"@] == Json::Text("Motion"@)
            &&& device is Moving ==> fields["type"@] == Json::Text("Moving"@)
            &&& device is Light ==> fields["type"@] == Json::Text("Light"@)
            &&& state == 1 ==> fields["state"@] == Json::Text(seq!['O', 'N'])
            &&& state != 1 ==> fields["state"@] == Json::Text(seq!['O', 'F', 'F'])
            &&& !(device is Light) ==> fields.dom() == set!["type"@, "state"@]
            &&& device is Light ==> {
                &&& fields.dom() == set!["type"@, "state"@, "brightness"@, "color"@]
                &&& fields["brightness"@] == Json::Number(Some(device->brightness as u64))
                &&& fields["color"@] matches Json::Object(color)
                &&& color.dom() == set!["r"@, "g"@, "b"@]
                &&& color["r"@] == Json::Number(Some(device->color.r as u64))
                &&& color["g"@] == Json::Number(Some(device->color.g as u64))
                &&& color["b"@] == Json::Number(Some(device->color.b as u64))
            }
        }),
{
    lemma_field_names();
    if let EspNowDevice::Motion { state } = device {
        law_sensor_is_published(state);
    }
    if let EspNowDevice::Moving { state } = device {
        law_sensor_is_published(state);
    }
    if device is Light {
        law_light_is_published(device);
    }
}

} // verus!
