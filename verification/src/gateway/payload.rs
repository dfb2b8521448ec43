//! The JSON form of a bridged device: the text that is published of it, and the commands that set
//! a light. A bridged light has no switch, so its JSON form has no state.
use crate::device::Color as Rgb;
use crate::gateway::device::{identifier, Color, EspNowDevice};
use crate::json::{
    is_shallow_message, no_fields, number_value, parsed_message, text_value, Json, Message,
};
use crate::light::{
    byte_reading, color_fields, command_in, law_message_is_read, lemma_field_names,
    serialized_color, switch_text, updated_byte, updated_color, LightCommand, Reading,
};
use vstd::prelude::*;

verus! {

/// The components of a colour, as its JSON form names them.
pub open spec fn components_of(color: Color) -> Rgb {
    Rgb { r: color.red, g: color.green, b: color.blue }
}

/// The colour with the given components.
pub open spec fn color_of(components: Rgb) -> Color {
    Color { red: components.r, green: components.g, blue: components.b }
}

/// A device after a command. Only a light follows it: brightness and colour are set in this
/// order, up to the first one that cannot be read. What the command says of a state is passed
/// over.
pub open spec fn commanded(device: EspNowDevice, command: LightCommand) -> EspNowDevice {
    match device {
        EspNowDevice::Light { color, brightness } => EspNowDevice::Light {
            color: match command.color {
                Reading::Value(components) => if command.brightness is Invalid {
                    color
                } else {
                    color_of(updated_color(components_of(color), components))
                },
                _ => color,
            },
            brightness: updated_byte(brightness, command.brightness, true),
        },
        _ => device,
    }
}

/// A device after the command that a text holds. A text that is no JSON object changes nothing.
pub open spec fn commanded_by_text(device: EspNowDevice, text: Seq<char>) -> EspNowDevice {
    match parsed_message(text) {
        Some(fields) => commanded(device, command_in(fields)),
        None => device,
    }
}

/// The JSON object that is published of a device: its kind under `type`, and its fields under
/// their names, a state as a switch text. A device type announcement has no JSON form.
pub open spec fn published_fields(device: EspNowDevice) -> Map<Seq<char>, Json> {
    match device {
        EspNowDevice::DeviceType(_) => no_fields(),
        EspNowDevice::Motion { state } => map![
            "type"@ => Json::Text("Motion"@),
            "state"@ => Json::Text(switch_text(state as u64)),
        ],
        EspNowDevice::Moving { state } => map![
            "type"@ => Json::Text("Moving"@),
            "state"@ => Json::Text(switch_text(state as u64)),
        ],
        EspNowDevice::Light { color, brightness } => map![
            "type"@ => Json::Text("Light"@),
            "brightness"@ => Json::Number(Some(brightness as u64)),
            "color"@ => Json::Object(color_fields(components_of(color))),
        ],
    }
}

/// Whether a text is one that is published of a device: an empty text of a device type
/// announcement, and the JSON of its object of any other device.
pub open spec fn is_published_text(device: EspNowDevice, text: Seq<char>) -> bool {
    if device is DeviceType {
        text == Seq::<char>::empty()
    } else {
        parsed_message(text) == Some(published_fields(device))
    }
}

impl Color {
    /// The components of the colour, as its JSON form names them.
    fn components(&self) -> (components: Rgb)
        ensures
            components == components_of(*self),
    {
        Rgb { r: self.red, g: self.green, b: self.blue }
    }
}

/// The switch text of a state.
fn switch(state: u8) -> (text: &'static str)
    ensures
        text@ == switch_text(state as u64),
{
    if state == 1 {
        "ON"
    } else {
        "OFF"
    }
}

impl EspNowDevice {
    /// The message that is published of the device; without fields for a device type
    /// announcement.
    fn published(&self) -> (message: Message)
        ensures
            message@ == published_fields(*self),
    {
        let mut message = Message::new();
        match self {
            EspNowDevice::DeviceType(_) => {},
            EspNowDevice::Motion { state } => {
                message.insert("type".to_owned(), text_value("Motion"));
                message.insert("state".to_owned(), text_value(switch(*state)));
            },
            EspNowDevice::Moving { state } => {
                message.insert("type".to_owned(), text_value("Moving"));
                message.insert("state".to_owned(), text_value(switch(*state)));
            },
            EspNowDevice::Light { color, brightness } => {
                message.insert("type".to_owned(), text_value("Light"));
                message.insert("brightness".to_owned(), number_value(*brightness));
                message.insert("color".to_owned(), serialized_color(&color.components()));
            },
        }
        message
    }

    /// The text that is published of the device: its JSON, or an empty text for a device type
    /// announcement. In what order the fields come is left open.
    pub fn as_json(&self) -> (json: String)
        ensures
            is_published_text(*self, json@),
    {
        match self {
            EspNowDevice::DeviceType(_) => String::new(),
            _ => {
                proof {
                    lemma_published_fields_shallow(*self);
                }
                self.published().to_json().unwrap()
            },
        }
    }

    /// Follows a command.
    pub fn apply(&mut self, command: &LightCommand)
        ensures
            *final(self) == commanded(*old(self), *command),
    {
        match self {
            EspNowDevice::Light { color, brightness } => {
                match &command.brightness {
                    Reading::Absent => {},
                    Reading::Invalid => {
                        return;
                    },
                    Reading::Value(value) => {
                        *brightness = *value;
                    },
                }
                match &command.color {
                    Reading::Absent => {},
                    Reading::Invalid => {
                        return;
                    },
                    Reading::Value(command) => {
                        let mut components = color.components();
                        command.apply(&mut components);
                        color.red = components.r;
                        color.green = components.g;
                        color.blue = components.b;
                    },
                }
            },
            _ => {},
        }
    }

    /// Follows the command that a JSON text holds. A text that is no JSON object changes
    /// nothing.
    pub fn set_json(&mut self, json: &str)
        ensures
            *final(self) == commanded_by_text(*old(self), json@),
    {
        match Message::from_json(json) {
            Ok(message) => {
                let command = LightCommand::read(&message);
                self.apply(&command);
            },
            Err(_) => {},
        }
    }
}

/// The JSON object of a device holds nothing deeper than an object of numbers.
proof fn lemma_published_fields_shallow(device: EspNowDevice)
    ensures
        is_shallow_message(published_fields(device)),
{
    if let EspNowDevice::Light { color, .. } = device {
        assert(Json::Object(color_fields(components_of(color))).is_shallow());
    }
}

/// Law: a light that is sent the text published of another light becomes that light.
pub proof fn law_json_round_trip(source: EspNowDevice, target: EspNowDevice, text: Seq<char>)
    requires
        source is Light,
        target is Light,
    ensures
        commanded(target, command_in(published_fields(source))) == source,
        is_published_text(source, text) ==> commanded_by_text(target, text) == source,
{
    lemma_field_names();
}

/// Law: what is published of a device names its kind, and of a sensor also whether its state is
/// one.
pub proof fn law_published_fields_tell(left: EspNowDevice, right: EspNowDevice)
    requires
        published_fields(left) == published_fields(right),
    ensures
        identifier(left) == identifier(right),
        left is Motion ==> (left->Motion_state == 1 <==> right->Motion_state == 1),
        left is Moving ==> (left->Moving_state == 1 <==> right->Moving_state == 1),
        left is Light ==> left == right,
{
    lemma_field_names();
    reveal_strlit("Motion");
    reveal_strlit("Moving");
    reveal_strlit("Light");
    reveal_strlit("ON");
    reveal_strlit("OFF");
    assert("Motion"@[2] == 't');
    assert("Moving"@[2] == 'v');
    assert("Light"@.len() == 5);
    assert("Motion"@.len() == 6);
    assert("Moving"@.len() == 6);
    assert("ON"@.len() == 2);
    assert("OFF"@.len() == 3);
    assert(left is DeviceType <==> !published_fields(left).contains_key("type"@));
    assert(right is DeviceType <==> !published_fields(right).contains_key("type"@));
    if !(left is DeviceType) {
        let kind = published_fields(left)["type"@];
        assert(kind == published_fields(right)["type"@]);
        assert(left is Motion <==> kind == Json::Text("Motion"@));
        assert(right is Motion <==> kind == Json::Text("Motion"@));
        assert(left is Light <==> kind == Json::Text("Light"@));
        assert(right is Light <==> kind == Json::Text("Light"@));
    }
    if left is Motion || left is Moving {
        let state = published_fields(left)["state"@];
        assert(state == published_fields(right)["state"@]);
        assert(state == Json::Text("ON"@) <==> state->Text_0 == "ON"@);
    }
    if left is Light {
        law_json_round_trip(left, left, Seq::empty());
        law_json_round_trip(right, left, Seq::empty());
    }
}

/// Law: following a command twice is following it once.
pub proof fn law_command_idempotent(device: EspNowDevice, command: LightCommand)
    ensures
        commanded(commanded(device, command), command) == commanded(device, command),
{
}

/// Law: a command changes no device but a light, keeps a light a light, and leaves what it does
/// not mention as it was.
pub proof fn law_command_keeps_the_rest(device: EspNowDevice, command: LightCommand)
    ensures
        identifier(commanded(device, command)) == identifier(device),
        !(device is Light) ==> commanded(device, command) == device,
        device is Light && command.brightness is Absent ==> commanded(device, command)->brightness
            == device->brightness,
        device is Light && command.color is Absent ==> commanded(device, command)->color
            == device->color,
{
}

/// Law: nothing that comes after a field that cannot be read is followed.
pub proof fn law_command_stops_at_unreadable_field(device: EspNowDevice, command: LightCommand)
    requires
        device is Light,
    ensures
        command.brightness is Invalid ==> commanded(device, command) == device,
        command.color is Invalid ==> commanded(device, command)->color == device->color,
{
}

/// Law: a light after a command. What the command gives a value for, and what no unreadable field
/// precedes, has that value, whatever the command says or does not say of the rest; everything
/// else is as it was.
pub proof fn law_light_follows_command(device: EspNowDevice, command: LightCommand)
    requires
        device is Light,
    ensures
        commanded(device, command) is Light,
        command.brightness matches Reading::Value(value) ==> commanded(device, command)->brightness
            == value,
        !(command.brightness is Value) ==> commanded(device, command)->brightness
            == device->brightness,
        command.color matches Reading::Value(color) ==> !(command.brightness is Invalid) ==> {
            let after = commanded(device, command)->color;
            &&& color.r matches Reading::Value(value) ==> after.red == value
            &&& !(color.r is Value) ==> after.red == device->color.red
            &&& color.g matches Reading::Value(value) ==> !(color.r is Invalid) ==> after.green
                == value
            &&& !(color.g is Value) || color.r is Invalid ==> after.green == device->color.green
            &&& color.b matches Reading::Value(value) ==> !(color.r is Invalid) && !(
            color.g is Invalid) ==> after.blue == value
            &&& !(color.b is Value) || color.r is Invalid || color.g is Invalid ==> after.blue
                == device->color.blue
        },
        !(command.color is Value) || command.brightness is Invalid ==> commanded(
            device,
            command,
        )->color == device->color,
{
}

/// Law: what a text does to a device. Only a light follows it, and only a text that is a JSON
/// object: a brightness that is a number is taken modulo 256, and so is each component of a
/// colour, as long as nothing before it is a value of another sort.
pub proof fn law_text_commands_device(device: EspNowDevice, text: Seq<char>)
    ensures
        parsed_message(text) is None ==> commanded_by_text(device, text) == device,
        !(device is Light) ==> commanded_by_text(device, text) == device,
        device is Light ==> commanded_by_text(device, text) is Light,
        device is Light ==> (parsed_message(text) matches Some(fields) ==> {
            let after = commanded_by_text(device, text);
            let dim = fields["brightness"@];
            let dimmed = fields.contains_key("brightness"@);
            &&& dimmed && dim is Number && dim->Number_0 is Some ==> after->brightness == (
            dim->Number_0->0) % 256
            &&& dimmed && !(dim is Number && dim->Number_0 is Some) ==> after == device
            &&& !dimmed ==> after->brightness == device->brightness
            &&& !fields.contains_key("color"@) || !(fields["color"@] is Object) ==> after->color
                == device->color
            &&& fields.contains_key("color"@) && (!dimmed || (dim is Number && dim->Number_0
                is Some)) ==> (fields["color"@] matches Json::Object(color) ==> {
                let red = byte_reading(color, seq!['r']);
                let green = byte_reading(color, seq!['g']);
                let blue = byte_reading(color, seq!['b']);
                &&& red matches Reading::Value(value) ==> after->color.red == value
                &&& !(red is Value) ==> after->color.red == device->color.red
                &&& green matches Reading::Value(value) ==> !(red is Invalid)
                    ==> after->color.green == value
                &&& !(green is Value) || red is Invalid ==> after->color.green
                    == device->color.green
                &&& blue matches Reading::Value(value) ==> !(red is Invalid) && !(green is Invalid)
                    ==> after->color.blue == value
                &&& !(blue is Value) || red is Invalid || green is Invalid ==> after->color.blue
                    == device->color.blue
            })
        }),
{
    if let Some(fields) = parsed_message(text) {
        law_message_is_read(fields);
        if device is Light {
            law_light_follows_command(device, command_in(fields));
        }
    }
}

/// Law: the text that is published of a sensor is a JSON object of two fields, its kind and the
/// text `ON` if its state is one and `OFF` if it is any other.
pub proof fn law_sensor_text(device: EspNowDevice, text: Seq<char>)
    requires
        device is Motion || device is Moving,
    ensures
        is_published_text(device, text) ==> ({
            let state = if device is Motion {
                device->Motion_state
            } else {
                device->Moving_state
            };
            &&& parsed_message(text) matches Some(fields)
            &&& fields.dom() == set!["type"@, "state"@]
            &&& device is Motion ==> fields["type"@] == Json::Text(
                seq!['M', 'o', 't', 'i', 'o', 'n'],
            )
            &&& device is Moving ==> fields["type"@] == Json::Text(
                seq!['M', 'o', 'v', 'i', 'n', 'g'],
            )
            &&& state == 1 ==> fields["state"@] == Json::Text(seq!['O', 'N'])
            &&& state != 1 ==> fields["state"@] == Json::Text(seq!['O', 'F', 'F'])
        }),
{
    lemma_field_names();
    reveal_strlit("ON");
    reveal_strlit("OFF");
    reveal_strlit("Motion");
    reveal_strlit("Moving");
    assert("ON"@ =~= seq!['O', 'N']);
    assert("OFF"@ =~= seq!['O', 'F', 'F']);
    assert("Motion"@ =~= seq!['M', 'o', 't', 'i', 'o', 'n']);
    assert("Moving"@ =~= seq!['M', 'o', 'v', 'i', 'n', 'g']);
    assert(published_fields(device).dom() =~= set!["type"@, "state"@]);
}

/// Law: the text that is published of a light is a JSON object of three fields: its kind, its
/// brightness, and an object of the three components of its colour.
pub proof fn law_light_text(device: EspNowDevice, text: Seq<char>)
    requires
        device is Light,
    ensures
        is_published_text(device, text) ==> ({
            &&& parsed_message(text) matches Some(fields)
            &&& fields.dom() == set!["type"@, "brightness"@, "color"@]
            &&& fields["type"@] == Json::Text(seq!['L', 'i', 'g', 'h', 't'])
            &&& fields["brightness"@] == Json::Number(Some(device->brightness as u64))
            &&& fields["color"@] matches Json::Object(color)
            &&& color.dom() == set!["r"@, "g"@, "b"@]
            &&& color["r"@] == Json::Number(Some(device->color.red as u64))
            &&& color["g"@] == Json::Number(Some(device->color.green as u64))
            &&& color["b"@] == Json::Number(Some(device->color.blue as u64))
        }),
{
    lemma_field_names();
    reveal_strlit("Light");
    assert("Light"@ =~= seq!['L', 'i', 'g', 'h', 't']);
    assert(published_fields(device).dom() =~= set!["type"@, "brightness"@, "color"@]);
    assert(color_fields(components_of(device->color)).dom() =~= set!["r"@, "g"@, "b"@]);
}

/// Law: the text that is published of a device type announcement is empty, and no other is.
pub proof fn law_announcement_text(byte: u8, text: Seq<char>)
    ensures
        is_published_text(EspNowDevice::DeviceType(byte), text) <==> text.len() == 0,
{
    if text.len() == 0 {
        assert(text =~= Seq::<char>::empty());
    }
}

/// Law: following the command of a text does what the text says, and giving the text of a device
/// gives one that is published of it. So a light that is given the text of another becomes it.
pub proof fn law_set_json_and_as_json(source: EspNowDevice, json: String)
    requires
        call_ensures(EspNowDevice::as_json, (&source,), json),
    ensures
        is_published_text(source, json@),
        source is DeviceType ==> json@.len() == 0,
        !(source is DeviceType) ==> parsed_message(json@) is Some,
        forall|device: &mut EspNowDevice, text: &str|
            #[trigger] call_ensures(EspNowDevice::set_json, (device, text), ()) ==> {
                let before = *device;
                let after = *final(device);
                &&& parsed_message(text@) is None ==> after == before
                &&& !(before is Light) ==> after == before
                &&& after == commanded_by_text(before, text@)
                &&& before is Light && source is Light && text@ == json@ ==> after == source
            },
        forall|device: &mut EspNowDevice, command: &LightCommand|
            #[trigger] call_ensures(EspNowDevice::apply, (device, command), ()) ==> {
                let before = *device;
                let after = *final(device);
                &&& !(before is Light) ==> after == before
                &&& before is Light ==> (command.brightness matches Reading::Value(value)
                    ==> after->brightness == value)
                &&& after == commanded(before, *command)
            },
{
    if source is Light {
        law_json_round_trip(source, source, json@);
        assert forall|target: EspNowDevice| target is Light implies #[trigger] commanded_by_text(
            target,
            json@,
        ) == source by {
            law_json_round_trip(source, target, json@);
        }
    }
}

} // verus!
