use esp_now_gateway::device::{Color, DeviceData, EspNowDevice};
use esp_now_gateway::packet::{ByteReader, DeviceError, EspNowSendData};

fn light() -> EspNowDevice {
    EspNowDevice::Light { state: 1, brightness: 2, color: Color { r: 3, g: 4, b: 5 } }
}

fn decode(bytes: &[u8]) -> (Result<EspNowDevice, DeviceError>, Vec<u8>) {
    let mut reader = ByteReader::new(bytes);
    let device = EspNowDevice::from_bytes(&mut reader);
    let mut rest = Vec::new();
    while let Some(byte) = reader.next() {
        rest.push(byte);
    }
    (device, rest)
}

#[test]
fn variants_are_the_identifiers() {
    assert_eq!(EspNowDevice::DeviceType(7).variant(), 0xF0);
    assert_eq!(EspNowDevice::Motion { state: 1 }.variant(), 0x21);
    assert_eq!(EspNowDevice::Moving { state: 1 }.variant(), 0x22);
    assert_eq!(light().variant(), 0xFE);
    let byte: u8 = light().into();
    assert_eq!(byte, 0xFE);
}

#[test]
fn identifiers_stand_for_blank_devices() {
    assert_eq!(EspNowDevice::try_from(0xF0), Some(EspNowDevice::DeviceType(0xF0)));
    assert_eq!(EspNowDevice::try_from(0x21), Some(EspNowDevice::Motion { state: 0 }));
    assert_eq!(EspNowDevice::try_from(0x22), Some(EspNowDevice::Moving { state: 0 }));
    assert_eq!(
        EspNowDevice::try_from(0xFE),
        Some(EspNowDevice::Light { state: 0, brightness: 0, color: Color { r: 0, g: 0, b: 0 } })
    );
    assert_eq!(EspNowDevice::try_from(0x23), None);
    for byte in 0..=255u8 {
        if let Some(device) = EspNowDevice::try_from(byte) {
            assert_eq!(device.variant(), byte);
        }
    }
}

#[test]
fn devices_are_encoded_with_their_state() {
    assert_eq!(EspNowDevice::DeviceType(9).as_bytes(), vec![9]);
    assert_eq!(EspNowDevice::Motion { state: 3 }.as_bytes(), vec![0x21, 3]);
    assert_eq!(EspNowDevice::Moving { state: 4 }.as_bytes(), vec![0x22, 4]);
    assert_eq!(light().as_bytes(), vec![0xFE, 1, 2, 3, 4, 5]);
    assert!(light().as_bytes() != EspNowDevice::Moving { state: 1 }.as_bytes());
}

#[test]
fn moving_devices_round_trip() {
    for state in 0..=255u8 {
        let device = EspNowDevice::Moving { state };
        let mut bytes = device.as_bytes();
        bytes.push(0xAA);
        let (decoded, rest) = decode(&bytes);
        assert_eq!(decoded.unwrap(), device);
        assert_eq!(rest, vec![0xAA]);
    }
}

#[test]
fn announcements_name_the_device_in_the_third_byte() {
    let (device, rest) = decode(&[0xF0, 0x55, 0x21, 0x01]);
    assert_eq!(device.unwrap(), EspNowDevice::Motion { state: 0 });
    assert_eq!(rest, vec![0x01]);
    let (device, _) = decode(&[0xF0, 0x00, 0xF0]);
    assert_eq!(device.unwrap(), EspNowDevice::DeviceType(0xF0));
    let (device, rest) = decode(&[0xF0, 0x00, 0x77, 0x01]);
    assert!(matches!(device, Err(DeviceError::UnknownDevice)));
    assert_eq!(rest, vec![0x01]);
}

#[test]
fn short_messages_are_invalid() {
    assert!(matches!(decode(&[]).0, Err(DeviceError::InvalidMessage)));
    assert!(matches!(decode(&[0x22]).0, Err(DeviceError::InvalidMessage)));
    let (device, rest) = decode(&[0xF0, 0x01]);
    assert!(matches!(device, Err(DeviceError::InvalidMessage)));
    assert!(rest.is_empty());
}

#[test]
fn other_messages_are_refused() {
    let (device, rest) = decode(&[0x77, 0x01]);
    assert!(matches!(device, Err(DeviceError::UnknownDevice)));
    assert_eq!(rest, vec![0x01]);
    let (device, rest) = decode(&EspNowDevice::Motion { state: 1 }.as_bytes());
    assert!(matches!(device, Err(DeviceError::UnimplementedType)));
    assert_eq!(rest, vec![0x01]);
    assert!(matches!(decode(&light().as_bytes()).0, Err(DeviceError::UnimplementedType)));
}

#[test]
fn a_packet_goes_to_the_node_of_the_device() {
    let data = DeviceData { mac: [6, 5, 4, 3, 2, 1].into(), device: light() };
    let packet: EspNowSendData = data.into();
    assert_eq!(packet.data, vec![0xFE, 1, 2, 3, 4, 5]);
    assert_eq!(packet.address, [6, 5, 4, 3, 2, 1]);
    assert_eq!(data.state_topic(), "06:05:04:03:02:01/state");
    assert_eq!(data.command_topic(), "06:05:04:03:02:01/set");
}

#[test]
fn the_reader_peeks_without_reading() {
    let mut reader = ByteReader::new(&[1, 2, 3]);
    assert_eq!(reader.peek(), Some(1));
    assert_eq!(reader.next(), Some(1));
    assert_eq!(reader.next_two(), Some((2, 3)));
    assert_eq!(reader.peek(), None);
    assert_eq!(reader.next(), None);
    let mut short = ByteReader::new(&[1]);
    assert_eq!(short.next_two(), None);
    assert_eq!(short.peek(), None);
}
