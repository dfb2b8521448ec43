//! The devices that the gateway bridges and their wire format. Lights have no switch here, and a
//! device type announcement is a single byte.
use crate::mac::MacAddr;
use crate::packet::{ByteReader, DeviceError, EspNowSendData};
use crate::topic::{command_topic, command_topic_of, state_topic, state_topic_of};
use vstd::prelude::*;
use vstd::std_specs::convert::{FromSpec, FromSpecImpl};

verus! {

/// A colour of a light.
#[derive(Debug, PartialEq, Eq, Structural, Clone, Copy)]
pub struct Color {
    pub red: u8,
    pub green: u8,
    pub blue: u8,
}

/// A bridged device and its state.
#[derive(Debug, PartialEq, Eq, Structural, Clone, Copy)]
pub enum EspNowDevice {
    /// The announcement of a device type.
    DeviceType(u8),
    Motion { state: u8 },
    Moving { state: u8 },
    Light { color: Color, brightness: u8 },
}

/// The byte that identifies the kind of the device.
pub open spec fn identifier(device: EspNowDevice) -> u8 {
    match device {
        EspNowDevice::DeviceType(_) => 0xF0,
        EspNowDevice::Motion { .. } => 0x21,
        EspNowDevice::Moving { .. } => 0x22,
        EspNowDevice::Light { .. } => 0xFE,
    }
}

/// The device that an identifier stands for, with all of its state zero.
pub open spec fn blank_device(byte: u8) -> Option<EspNowDevice> {
    if byte == 0xF0 {
        Some(EspNowDevice::DeviceType(0xF0))
    } else if byte == 0x21 {
        Some(EspNowDevice::Motion { state: 0 })
    } else if byte == 0x22 {
        Some(EspNowDevice::Moving { state: 0 })
    } else if byte == 0xFE {
        Some(EspNowDevice::Light { color: Color { red: 0, green: 0, blue: 0 }, brightness: 0 })
    } else {
        None
    }
}

/// The bytes that a device is sent as.
pub open spec fn encoded(device: EspNowDevice) -> Seq<u8> {
    match device {
        EspNowDevice::DeviceType(byte) => seq![byte],
        EspNowDevice::Motion { state } => seq![0x21u8, state],
        EspNowDevice::Moving { state } => seq![0x22u8, state],
        EspNowDevice::Light { color, brightness } => seq![
            0xFEu8,
            color.red,
            color.green,
            color.blue,
            brightness,
        ],
    }
}

/// What is decoded from the front of some bytes, and the bytes left after it. A device type
/// announcement is its identifier alone; a moving device is followed by its state; motion
/// sensors and lights are not decoded.
pub open spec fn decoded(bytes: Seq<u8>) -> (Result<EspNowDevice, DeviceError>, Seq<u8>) {
    if bytes.len() == 0 {
        (Err(DeviceError::InvalidMessage), bytes)
    } else if bytes[0] == 0xF0 {
        (Ok(EspNowDevice::DeviceType(0xF0)), bytes.skip(1))
    } else if bytes[0] == 0x22 {
        if bytes.len() < 2 {
            (Err(DeviceError::InvalidMessage), seq![])
        } else {
            (Ok(EspNowDevice::Moving { state: bytes[1] }), bytes.skip(2))
        }
    } else if bytes[0] == 0x21 || bytes[0] == 0xFE {
        (Err(DeviceError::UnimplementedType), bytes.skip(1))
    } else {
        (Err(DeviceError::UnknownDevice), bytes.skip(1))
    }
}

impl FromSpecImpl<EspNowDevice> for u8 {
    open spec fn obeys_from_spec() -> bool {
        true
    }

    open spec fn from_spec(device: EspNowDevice) -> u8 {
        identifier(device)
    }
}

impl From<EspNowDevice> for u8 {
    fn from(device: EspNowDevice) -> u8 {
        match device {
            EspNowDevice::DeviceType(_) => 0xF0,
            EspNowDevice::Motion { state: _ } => 0x21,
            EspNowDevice::Moving { state: _ } => 0x22,
            EspNowDevice::Light { color: _, brightness: _ } => 0xFE,
        }
    }
}

impl EspNowDevice {
    /// The device that an identifier stands for, with all of its state zero; `None` for a byte
    /// that identifies no device.
    pub fn try_from(byte: u8) -> (device: Option<EspNowDevice>)
        ensures
            device == blank_device(byte),
    {
        match byte {
            0xF0 => Some(EspNowDevice::DeviceType(byte)),
            0x21 => Some(EspNowDevice::Motion { state: 0 }),
            0x22 => Some(EspNowDevice::Moving { state: 0 }),
            0xFE => Some(
                EspNowDevice::Light { color: Color { red: 0, green: 0, blue: 0 }, brightness: 0 },
            ),
            _ => None,
        }
    }

    /// The bytes that the device is sent as.
    pub fn as_bytes(self) -> (bytes: Vec<u8>)
        ensures
            bytes@ == encoded(self),
    {
        match self {
            EspNowDevice::DeviceType(byte) => vec![byte],
            EspNowDevice::Motion { state } => vec![self.into(), state],
            EspNowDevice::Moving { state } => vec![self.into(), state],
            EspNowDevice::Light { color, brightness } => vec![
                self.into(),
                color.red,
                color.green,
                color.blue,
                brightness,
            ],
        }
    }

    /// Decodes one device from the front of the bytes, and leaves the reader behind it.
    pub fn from_bytes(bytes: &mut ByteReader) -> (device: Result<EspNowDevice, DeviceError>)
        ensures
            device == decoded(old(bytes)@).0,
            final(bytes)@ == decoded(old(bytes)@).1,
    {
        let first: u8 = match bytes.next() {
            Some(byte) => byte,
            None => {
                return Err(DeviceError::InvalidMessage);
            },
        };
        let device = match EspNowDevice::try_from(first) {
            Some(device) => device,
            None => {
                return Err(DeviceError::UnknownDevice);
            },
        };
        match device {
            EspNowDevice::DeviceType(_) => Ok(device),
            EspNowDevice::Moving { state: _ } => match bytes.next() {
                Some(state) => {
                    assert(bytes@ =~= old(bytes)@.skip(2));
                    Ok(EspNowDevice::Moving { state })
                },
                None => {
                    assert(bytes@ =~= seq![]);
                    Err(DeviceError::InvalidMessage)
                },
            },
            _ => Err(DeviceError::UnimplementedType),
        }
    }
}

/// A device and the node that it belongs to.
#[derive(Clone, Copy)]
pub struct DeviceData {
    pub mac: MacAddr,
    pub device: EspNowDevice,
}

impl FromSpecImpl<DeviceData> for EspNowSendData {
    open spec fn obeys_from_spec() -> bool {
        false
    }

    open spec fn from_spec(data: DeviceData) -> EspNowSendData {
        arbitrary()
    }
}

impl From<DeviceData> for EspNowSendData {
    fn from(data: DeviceData) -> (packet: EspNowSendData)
        ensures
            packet.data@ == encoded(data.device),
            packet.address == data.mac.mac,
    {
        EspNowSendData { data: data.device.as_bytes(), address: data.mac.mac }
    }
}

impl DeviceData {
    /// The MQTT topic that the device's state is published to.
    pub fn state_topic(&self) -> (topic: String)
        ensures
            topic@ == state_topic_of(self.mac),
    {
        state_topic(&self.mac)
    }

    /// The MQTT topic that commands to the device are published to.
    pub fn command_topic(&self) -> (topic: String)
        ensures
            topic@ == command_topic_of(self.mac),
    {
        command_topic(&self.mac)
    }
}

/// Law: the identifier of a device stands for a device of its kind, and a device made from an
/// identifier has that identifier.
pub proof fn law_identifier_names_kind(device: EspNowDevice, byte: u8)
    ensures
        blank_device(identifier(device)) is Some,
        identifier(blank_device(identifier(device)).unwrap()) == identifier(device),
        blank_device(byte) matches Some(blank) ==> identifier(blank) == byte,
{
}

/// Law: devices that are sent as the same bytes are the same, and all but device type
/// announcements start with their identifier.
pub proof fn law_encoding_unambiguous(left: EspNowDevice, right: EspNowDevice)
    ensures
        encoded(left) == encoded(right) <==> left == right,
        !(left is DeviceType) ==> encoded(left)[0] == identifier(left),
{
    if encoded(left) == encoded(right) {
        assert(encoded(left).len() == encoded(right).len());
        assert(encoded(left)[0] == encoded(right)[0]);
        if encoded(left).len() > 1 {
            assert(encoded(left)[1] == encoded(right)[1]);
        }
        if encoded(left).len() > 2 {
            assert(encoded(left)[2] == encoded(right)[2]);
            assert(encoded(left)[3] == encoded(right)[3]);
            assert(encoded(left)[4] == encoded(right)[4]);
        }
    }
}

/// Law: a moving device, and a device type announcement, is decoded from the bytes that it is
/// sent as, whatever follows them.
pub proof fn law_wire_round_trip(device: EspNowDevice, rest: Seq<u8>)
    requires
        device is Moving || device == EspNowDevice::DeviceType(0xF0),
    ensures
        decoded(encoded(device) + rest) == (Ok::<EspNowDevice, DeviceError>(device), rest),
{
    let bytes = encoded(device) + rest;
    assert(bytes.skip(encoded(device).len() as int) =~= rest);
    assert(bytes[0] == encoded(device)[0]);
    if device is Moving {
        assert(bytes[1] == encoded(device)[1]);
    }
}

/// Law: decoding reads from the front, at least one byte if there is one.
pub proof fn law_decoding_advances(bytes: Seq<u8>)
    requires
        bytes.len() > 0,
    ensures
        decoded(bytes).1.len() < bytes.len(),
        decoded(bytes).1 == bytes.skip(bytes.len() - decoded(bytes).1.len()),
{
    assert(Seq::<u8>::empty() =~= bytes.skip(bytes.len() as int));
}

/// Law: each kind of device has an identifier of its own.
pub proof fn law_kinds_have_identifiers(device: EspNowDevice)
    ensures
        identifier(device) == 0xF0 <==> device is DeviceType,
        identifier(device) == 0x21 <==> device is Motion,
        identifier(device) == 0x22 <==> device is Moving,
        identifier(device) == 0xFE <==> device is Light,
        <u8 as FromSpec<EspNowDevice>>::from_spec(device) == 0xF0 <==> device is DeviceType,
        <u8 as FromSpec<EspNowDevice>>::from_spec(device) == 0x21 <==> device is Motion,
        <u8 as FromSpec<EspNowDevice>>::from_spec(device) == 0x22 <==> device is Moving,
        <u8 as FromSpec<EspNowDevice>>::from_spec(device) == 0xFE <==> device is Light,
{
}

/// Law: four bytes are identifiers, and each stands for a device that is sent as that byte and
/// then zeros only.
pub proof fn law_identifier_stands_for_blank_device(byte: u8)
    ensures
        blank_device(byte) is Some <==> byte == 0xF0 || byte == 0x21 || byte == 0x22 || byte
            == 0xFE,
        blank_device(byte) matches Some(device) ==> {
            &&& identifier(device) == byte
            &&& encoded(device)[0] == byte
            &&& forall|i: int| 0 < i < encoded(device).len() ==> encoded(device)[i] == 0
        },
{
}

/// Law: each byte that a device is sent as is one field of it, whatever the others are: first the
/// identifier of its kind, then a
/// sensor's state, or a light's red, green, blue and brightness. A device type announcement is its byte alone.
pub proof fn law_encoding_layout(device: EspNowDevice)
    ensures
        device matches EspNowDevice::DeviceType(byte) ==> {
            &&& encoded(device).len() == 1
            &&& encoded(device)[0] == byte
        },
        device matches EspNowDevice::Motion { state } ==> {
            &&& encoded(device).len() == 2
            &&& encoded(device)[0] == 0x21
            &&& encoded(device)[1] == state
        },
        device matches EspNowDevice::Moving { state } ==> {
            &&& encoded(device).len() == 2
            &&& encoded(device)[0] == 0x22
            &&& encoded(device)[1] == state
        },
        device matches EspNowDevice::Light { color, brightness } ==> {
            &&& encoded(device).len() == 5
            &&& encoded(device)[0] == 0xFE
            &&& encoded(device)[1] == color.red
            &&& encoded(device)[2] == color.green
            &&& encoded(device)[3] == color.blue
            &&& encoded(device)[4] == brightness
        },
{
}

/// Law: which bytes give a device, which one, and why the others give none. A message that ends
/// early is invalid; a motion sensor or a light is not decoded; any other first byte is unknown.
pub proof fn law_decoding_outcome(bytes: Seq<u8>)
    ensures
        decoded(bytes).0 == Err::<EspNowDevice, DeviceError>(DeviceError::InvalidMessage) <==> {
            ||| bytes.len() == 0
            ||| bytes[0] == 0x22 && bytes.len() < 2
        },
        decoded(bytes).0 == Err::<EspNowDevice, DeviceError>(DeviceError::UnimplementedType) <==> {
            &&& bytes.len() > 0
            &&& bytes[0] == 0x21 || bytes[0] == 0xFE
        },
        decoded(bytes).0 == Err::<EspNowDevice, DeviceError>(DeviceError::UnknownDevice) <==> {
            &&& bytes.len() > 0
            &&& bytes[0] != 0xF0 && bytes[0] != 0x21 && bytes[0] != 0x22 && bytes[0] != 0xFE
        },
        decoded(bytes).0 matches Ok(device) ==> {
            ||| bytes[0] == 0x22 && device == EspNowDevice::Moving { state: bytes[1] }
            ||| bytes[0] == 0xF0 && device == EspNowDevice::DeviceType(bytes[0])
        },
{
}

/// Law: how many bytes decoding reads: two of a moving device that is all there, and one of
/// anything else. Those after them are left.
pub proof fn law_decoding_reads(bytes: Seq<u8>)
    requires
        bytes.len() > 0,
    ensures
        bytes[0] == 0x22 && bytes.len() >= 2 ==> decoded(bytes).1 == bytes.skip(2),
        bytes[0] != 0x22 || bytes.len() < 2 ==> decoded(bytes).1 == bytes.skip(1),
{
}

/// Law: what sending a device gives: the identifier of its kind, then each of its fields in its
/// place; a device type announcement gives its byte alone.
pub proof fn law_sent_bytes(device: EspNowDevice, bytes: Vec<u8>)
    requires
        call_ensures(EspNowDevice::as_bytes, (device,), bytes),
    ensures
        device matches EspNowDevice::DeviceType(byte) ==> bytes@ == seq![byte],
        device matches EspNowDevice::Motion { state } ==> bytes@ == seq![0x21u8, state],
        device matches EspNowDevice::Moving { state } ==> bytes@ == seq![0x22u8, state],
        device matches EspNowDevice::Light { color, brightness } ==> {
            &&& bytes@.len() == 5
            &&& bytes@[0] == 0xFE
            &&& bytes@[1] == color.red
            &&& bytes@[2] == color.green
            &&& bytes@[3] == color.blue
            &&& bytes@[4] == brightness
        },
{
}

/// Law: a packet to a device goes to its node, and holds what sending the device gives.
pub proof fn law_packet_of_device(data: DeviceData, packet: EspNowSendData, bytes: Vec<u8>)
    requires
        call_ensures(<EspNowSendData as From<DeviceData>>::from, (data,), packet),
        call_ensures(EspNowDevice::as_bytes, (data.device,), bytes),
    ensures
        packet.address == data.mac.mac,
        packet.data@ == bytes@,
{
}

/// Law: reading what sending a moving device gives, whatever follows it, gives that device and
/// leaves what follows. Reading fails where a moving device has no state, and on motion sensors,
/// lights and nothing at all.
pub proof fn law_sent_device_is_read(state: u8, bytes: Vec<u8>)
    requires
        call_ensures(EspNowDevice::as_bytes, (EspNowDevice::Moving { state },), bytes),
    ensures
        forall|reader: &mut ByteReader, device: Result<EspNowDevice, DeviceError>, rest: Seq<u8>|
            #![trigger call_ensures(EspNowDevice::from_bytes, (reader,), device), bytes@ + rest]
            call_ensures(EspNowDevice::from_bytes, (reader,), device) && (*reader)@ == bytes@ + rest
                ==> {
                &&& device == Ok::<EspNowDevice, DeviceError>(EspNowDevice::Moving { state })
                &&& (*final(reader))@ == rest
            },
        forall|reader: &mut ByteReader, device: Result<EspNowDevice, DeviceError>|
            #[trigger] call_ensures(EspNowDevice::from_bytes, (reader,), device) ==> {
                let unread = (*reader)@;
                &&& unread.len() == 0 ==> device == Err::<EspNowDevice, DeviceError>(
                    DeviceError::InvalidMessage,
                )
                &&& unread == seq![0x22u8] ==> device == Err::<EspNowDevice, DeviceError>(
                    DeviceError::InvalidMessage,
                )
                &&& unread.len() > 0 && (unread[0] == 0x21 || unread[0] == 0xFE) ==> device == Err::<
                    EspNowDevice,
                    DeviceError,
                >(DeviceError::UnimplementedType)
                &&& device == decoded(unread).0
                &&& (*final(reader))@ == decoded(unread).1
            },
{
    assert forall|rest: Seq<u8>| decoded(#[trigger] (bytes@ + rest)) == (
        Ok::<EspNowDevice, DeviceError>(EspNowDevice::Moving { state }),
        rest,
    ) by {
        law_wire_round_trip(EspNowDevice::Moving { state }, rest);
    }
}

} // verus!
