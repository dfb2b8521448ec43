use esp_now_gateway::gateway::device::{Color, DeviceData, EspNowDevice};
use esp_now_gateway::gateway::radio::{
    delivered, is_broadcast_address, on_frame, parse_esp_now_data, ReceivedFrame,
};
use esp_now_gateway::packet::{ByteReader, DeviceError, EspNowSendData};

const NODE: [u8; 6] = [1, 2, 3, 4, 5, 6];
const GATEWAY: [u8; 6] = [9, 9, 9, 9, 9, 9];
const EVERYONE: [u8; 6] = [0xff; 6];

fn frame(dst_address: [u8; 6], bytes: &[u8]) -> ReceivedFrame {
    let mut data = bytes.to_vec();
    data.resize(256, 0x22);
    ReceivedFrame { src_address: NODE, dst_address, len: bytes.len() as u8, data }
}

fn devices(bytes: &[u8]) -> Vec<EspNowDevice> {
    let parsed = parse_esp_now_data(frame(GATEWAY, bytes));
    for data in &parsed {
        assert_eq!(data.mac.mac, NODE);
    }
    parsed.iter().map(|data| data.device).collect()
}

#[test]
fn devices_are_read_up_to_the_end_of_the_payload() {
    assert_eq!(
        devices(&[0x22, 7, 0xF0, 0x22, 8]),
        vec![
            EspNowDevice::Moving { state: 7 },
            EspNowDevice::DeviceType(0xF0),
            EspNowDevice::Moving { state: 8 },
        ]
    );
    assert_eq!(devices(&[]), vec![]);
}

#[test]
fn reading_stops_at_the_first_error() {
    assert_eq!(devices(&[0x22, 7, 0x21, 1, 0x22, 8]), vec![EspNowDevice::Moving { state: 7 }]);
    assert_eq!(devices(&[0x22, 7, 0x99, 0x22, 8]), vec![EspNowDevice::Moving { state: 7 }]);
    assert_eq!(devices(&[0xF0, 0x22]), vec![EspNowDevice::DeviceType(0xF0)]);
}

#[test]
fn a_length_beyond_the_buffer_takes_the_whole_buffer() {
    let short = ReceivedFrame { src_address: NODE, dst_address: GATEWAY, len: 9, data: vec![0x22, 1] };
    assert_eq!(parse_esp_now_data(short).len(), 1);
}

#[test]
fn bridged_devices_have_their_own_format() {
    let light = EspNowDevice::Light { color: Color { red: 1, green: 2, blue: 3 }, brightness: 4 };
    assert_eq!(light.as_bytes(), vec![0xFE, 1, 2, 3, 4]);
    assert_eq!(EspNowDevice::Motion { state: 5 }.as_bytes(), vec![0x21, 5]);
    assert_eq!(EspNowDevice::Moving { state: 6 }.as_bytes(), vec![0x22, 6]);
    assert_eq!(EspNowDevice::DeviceType(7).as_bytes(), vec![7]);
    let byte: u8 = light.into();
    assert_eq!(byte, 0xFE);
    assert_eq!(
        EspNowDevice::try_from(0xFE),
        Some(EspNowDevice::Light { color: Color { red: 0, green: 0, blue: 0 }, brightness: 0 })
    );
    assert_eq!(EspNowDevice::try_from(1), None);
}

#[test]
fn bridged_devices_are_decoded_or_refused() {
    assert!(matches!(
        EspNowDevice::from_bytes(&mut ByteReader::new(&[])),
        Err(DeviceError::InvalidMessage)
    ));
    assert!(matches!(
        EspNowDevice::from_bytes(&mut ByteReader::new(&[0x22])),
        Err(DeviceError::InvalidMessage)
    ));
    assert!(matches!(
        EspNowDevice::from_bytes(&mut ByteReader::new(&[0xFE, 1, 2, 3, 4])),
        Err(DeviceError::UnimplementedType)
    ));
    assert!(matches!(
        EspNowDevice::from_bytes(&mut ByteReader::new(&[0x00])),
        Err(DeviceError::UnknownDevice)
    ));
    assert_eq!(
        EspNowDevice::from_bytes(&mut ByteReader::new(&[0xF0])).unwrap(),
        EspNowDevice::DeviceType(0xF0)
    );
}

#[test]
fn a_stranger_becomes_a_peer_and_is_answered_with_one() {
    let reaction = on_frame(frame(GATEWAY, &[0x22, 1]), false);
    assert_eq!(reaction.new_peer, Some(NODE));
    let reply = reaction.reply.unwrap();
    assert_eq!(reply.data, vec![1]);
    assert_eq!(reply.address, NODE);
    assert_eq!(reaction.devices.unwrap().len(), 1);
}

#[test]
fn a_peer_is_answered_with_zero_only_on_broadcasts() {
    let reaction = on_frame(frame(EVERYONE, &[]), true);
    assert_eq!(reaction.new_peer, None);
    let reply = reaction.reply.unwrap();
    assert_eq!(reply.data, vec![0]);
    assert_eq!(reply.address, NODE);
    assert!(reaction.devices.is_none());
    let silent = on_frame(frame(GATEWAY, &[0x99]), true);
    assert!(silent.new_peer.is_none());
    assert!(silent.reply.is_none());
    assert!(silent.devices.is_none());
}

#[test]
fn broadcast_addresses_are_all_ones() {
    assert!(is_broadcast_address(&EVERYONE));
    assert!(!is_broadcast_address(&[0xff, 0xff, 0xff, 0xff, 0xff, 0xfe]));
}

#[test]
fn delivery_is_signalled() {
    let sent: Result<(), u8> = Ok(());
    let lost: Result<(), u8> = Err(1);
    assert!(delivered(&sent));
    assert!(!delivered(&lost));
}

#[test]
fn a_bridged_device_is_sent_to_its_node() {
    let data = DeviceData { mac: NODE.into(), device: EspNowDevice::Moving { state: 2 } };
    let packet: EspNowSendData = data.into();
    assert_eq!(packet.data, vec![0x22, 2]);
    assert_eq!(packet.address, NODE);
    assert_eq!(data.state_topic(), "01:02:03:04:05:06/state");
    assert_eq!(data.command_topic(), "01:02:03:04:05:06/set");
}
