//! What the gateway does with the ESP-NOW packets that come in.
use crate::gateway::device::{
    decoded, encoded, law_wire_round_trip, DeviceData, EspNowDevice,
};
use crate::mac::MacAddr;
use crate::packet::{ByteReader, DeviceError, EspNowSendData};
use vstd::prelude::*;

verus! {

/// A packet as the radio hands it over: from whom and to whom it went, a buffer, and how many
/// bytes at its front the packet fills.
pub struct ReceivedFrame {
    pub src_address: [u8; 6],
    pub dst_address: [u8; 6],
    pub len: u8,
    pub data: Vec<u8>,
}

impl ReceivedFrame {
    /// The bytes of the packet.
    pub open spec fn payload(&self) -> Seq<u8> {
        if self.len <= self.data@.len() {
            self.data@.take(self.len as int)
        } else {
            self.data@
        }
    }
}

/// The devices that some bytes report: they are decoded one after the other, up to the end or
/// the first one that cannot be decoded.
pub open spec fn readings(bytes: Seq<u8>) -> Seq<EspNowDevice>
    decreases bytes.len(),
{
    if bytes.len() == 0 {
        seq![]
    } else {
        match decoded(bytes).0 {
            Ok(device) => seq![device] + readings(decoded(bytes).1),
            Err(_) => seq![],
        }
    }
}

/// The devices that some bytes report of a node.
pub open spec fn reports(mac: MacAddr, bytes: Seq<u8>) -> Seq<DeviceData> {
    readings(bytes).map_values(|device: EspNowDevice| DeviceData { mac, device })
}

/// The devices that a packet reports of the node that sent it.
pub fn parse_esp_now_data(frame: ReceivedFrame) -> (devices: Vec<DeviceData>)
    ensures
        devices@ == reports(MacAddr { mac: frame.src_address }, frame.payload()),
{
    let ghost expected = reports(MacAddr { mac: frame.src_address }, frame.payload());
    let mac: MacAddr = frame.src_address.into();
    let mut payload: Vec<u8> = frame.data;
    payload.truncate(frame.len as usize);
    let mut devices: Vec<DeviceData> = Vec::new();
    let mut reader = ByteReader::new(payload.as_slice());
    assert(devices@ + reports(mac, reader@) =~= expected);
    while reader.peek().is_some()
        invariant
            devices@ + reports(mac, reader@) == expected,
            expected == reports(MacAddr { mac: frame.src_address }, frame.payload()),
        decreases reader@.len(),
    {
        let ghost before = reader@;
        match EspNowDevice::from_bytes(&mut reader) {
            Ok(device) => {
                let ghost known = devices@;
                devices.push(DeviceData { mac, device });
                assert(known + reports(mac, before) =~= devices@ + reports(mac, reader@));
            },
            Err(_) => {
                assert(devices@ + reports(mac, before) =~= devices@);
                return devices;
            },
        }
    }
    assert(devices@ + reports(mac, reader@) =~= devices@);
    devices
}

/// Whether an address is the one that reaches every node.
pub open spec fn is_broadcast(address: Seq<u8>) -> bool {
    forall|i: int| 0 <= i < address.len() ==> address[i] == 0xff
}

/// Whether an address is the one that reaches every node.
pub fn is_broadcast_address(address: &[u8; 6]) -> (broadcast: bool)
    ensures
        broadcast == is_broadcast(address@),
{
    let mut i: usize = 0;
    while i < 6
        invariant
            0 <= i <= 6,
            forall|j: int| 0 <= j < i ==> address@[j] == 0xff,
        decreases 6 - i,
    {
        if address[i] != 0xff {
            return false;
        }
        i = i + 1;
    }
    true
}

/// What a packet leads to, in this order: a peer to add, a reply to send, and devices to hand
/// on.
pub struct FrameReaction {
    pub new_peer: Option<[u8; 6]>,
    pub reply: Option<EspNowSendData>,
    pub devices: Option<Vec<DeviceData>>,
}

/// Decides on a packet, given whether its sender is a peer already. A sender that is no peer
/// becomes one and is answered with a one; a peer is answered with a zero where it addressed
/// every node, and not at all where it addressed the gateway. Reported devices are handed on.
pub fn on_frame(frame: ReceivedFrame, peer_exists: bool) -> (reaction: FrameReaction)
    ensures
        reaction.new_peer == (if peer_exists {
            None
        } else {
            Some(frame.src_address)
        }),
        reaction.reply is Some <==> is_broadcast(frame.dst_address@) || !peer_exists,
        reaction.reply matches Some(reply) ==> {
            &&& reply.address == frame.src_address
            &&& reply.data@ == seq![if peer_exists { 0u8 } else { 1u8 }]
        },
        reaction.devices is Some <==> reports(
            MacAddr { mac: frame.src_address },
            frame.payload(),
        ).len() > 0,
        reaction.devices matches Some(devices) ==> devices@ == reports(
            MacAddr { mac: frame.src_address },
            frame.payload(),
        ),
{
    let src_address: [u8; 6] = frame.src_address;
    let mut new_peer: Option<[u8; 6]> = None;
    let mut reply: Option<EspNowSendData> = None;
    if is_broadcast_address(&frame.dst_address) || !peer_exists {
        let mut data: Vec<u8> = vec![0x00u8];
        if !peer_exists {
            new_peer = Some(src_address);
            data.set(0, 0x01);
        }
        assert(data@ =~= seq![if peer_exists { 0u8 } else { 1u8 }]);
        reply = Some(EspNowSendData { data, address: src_address });
    }
    let found = parse_esp_now_data(frame);
    let devices = if found.len() > 0 {
        Some(found)
    } else {
        None
    };
    FrameReaction { new_peer, reply, devices }
}

/// What the sender of a packet is told: whether it went out.
pub fn delivered<E>(status: &Result<(), E>) -> (signal: bool)
    ensures
        signal == (*status is Ok),
{
    match status {
        Ok(_) => true,
        Err(_) => false,
    }
}

/// The bytes that devices are sent as, one after the other.
pub open spec fn encoded_all(devices: Seq<EspNowDevice>) -> Seq<u8>
    decreases devices.len(),
{
    if devices.len() == 0 {
        seq![]
    } else {
        encoded(devices[0]) + encoded_all(devices.skip(1))
    }
}

/// Law: a packet of moving devices and device type announcements is read back in full, and in
/// order, and what follows is read as if it stood alone.
pub proof fn law_packet_round_trip(devices: Seq<EspNowDevice>, rest: Seq<u8>)
    requires
        forall|i: int|
            0 <= i < devices.len() ==> (#[trigger] devices[i]) is Moving || devices[i]
                == EspNowDevice::DeviceType(0xF0),
    ensures
        readings(encoded_all(devices) + rest) == devices + readings(rest),
    decreases devices.len(),
{
    if devices.len() == 0 {
        assert(encoded_all(devices) + rest =~= rest);
        assert(devices + readings(rest) =~= readings(rest));
    } else {
        let tail = devices.skip(1);
        law_packet_round_trip(tail, rest);
        law_wire_round_trip(devices[0], encoded_all(tail) + rest);
        assert(encoded_all(devices) + rest =~= encoded(devices[0]) + (encoded_all(tail) + rest));
        assert(devices + readings(rest) =~= seq![devices[0]] + (tail + readings(rest)));
    }
}

/// Law: the devices before one that cannot be decoded are reported, and nothing after it.
pub proof fn law_reading_stops_at_error(devices: Seq<EspNowDevice>, rest: Seq<u8>)
    requires
        forall|i: int|
            0 <= i < devices.len() ==> (#[trigger] devices[i]) is Moving || devices[i]
                == EspNowDevice::DeviceType(0xF0),
        decoded(rest).0 is Err,
    ensures
        readings(encoded_all(devices) + rest) == devices,
{
    law_packet_round_trip(devices, rest);
    assert(devices + readings(rest) =~= devices);
}

/// Law: the bytes of a packet are those at the front of its buffer, as many as its length says or,
/// where the buffer is shorter, all of them.
pub proof fn law_payload_is_front_of_buffer(frame: ReceivedFrame)
    ensures
        frame.len <= frame.data@.len() ==> frame.payload().len() == frame.len,
        frame.len > frame.data@.len() ==> frame.payload().len() == frame.data@.len(),
        forall|i: int|
            0 <= i < frame.payload().len() ==> (#[trigger] frame.payload()[i]) == frame.data@[i],
{
}

/// Law: a packet gives one report for each device that is read from it, in order, with the
/// address of its sender and exactly that device.
pub proof fn law_reports_are_readings(mac: MacAddr, bytes: Seq<u8>)
    ensures
        reports(mac, bytes).len() == readings(bytes).len(),
        forall|i: int|
            0 <= i < readings(bytes).len() ==> {
                &&& (#[trigger] reports(mac, bytes)[i]).mac == mac
                &&& reports(mac, bytes)[i].device == readings(bytes)[i]
            },
{
}

/// Law: a packet of moving devices and device type announcements, and then bytes that are no
/// device or none, gives a report of each of those devices, in order, with the address of its
/// sender, and no other report.
pub proof fn law_report_round_trip(mac: MacAddr, devices: Seq<EspNowDevice>, rest: Seq<u8>)
    requires
        forall|i: int|
            0 <= i < devices.len() ==> (#[trigger] devices[i]) is Moving || devices[i]
                == EspNowDevice::DeviceType(0xF0),
        decoded(rest).0 is Err,
    ensures
        reports(mac, encoded_all(devices) + rest).len() == devices.len(),
        forall|i: int|
            0 <= i < devices.len() ==> {
                &&& (#[trigger] reports(mac, encoded_all(devices) + rest)[i]).mac == mac
                &&& reports(mac, encoded_all(devices) + rest)[i].device == devices[i]
            },
{
    law_reading_stops_at_error(devices, rest);
}

/// Law: a moving device at the front of a packet is reported with its state, and the rest of the
/// packet as if it stood alone.
pub proof fn law_moving_is_reported(mac: MacAddr, state: u8, rest: Seq<u8>)
    ensures
        reports(mac, seq![0x22u8, state] + rest) == seq![
            DeviceData { mac, device: EspNowDevice::Moving { state } },
        ] + reports(mac, rest),
{
    let bytes = seq![0x22u8, state] + rest;
    assert(bytes.skip(2) =~= rest);
    assert(decoded(bytes).0 == Ok::<EspNowDevice, DeviceError>(EspNowDevice::Moving { state }));
    assert(reports(mac, bytes) =~= seq![
        DeviceData { mac, device: EspNowDevice::Moving { state } },
    ] + reports(mac, rest));
}

/// Law: a device type announcement at the front of a packet is reported as such, and the rest of
/// the packet as if it stood alone.
pub proof fn law_announcement_is_reported(mac: MacAddr, rest: Seq<u8>)
    ensures
        reports(mac, seq![0xF0u8] + rest) == seq![
            DeviceData { mac, device: EspNowDevice::DeviceType(0xF0) },
        ] + reports(mac, rest),
{
    let bytes = seq![0xF0u8] + rest;
    assert(bytes.skip(1) =~= rest);
    assert(decoded(bytes).0 == Ok::<EspNowDevice, DeviceError>(EspNowDevice::DeviceType(0xF0)));
    assert(reports(mac, bytes) =~= seq![
        DeviceData { mac, device: EspNowDevice::DeviceType(0xF0) },
    ] + reports(mac, rest));
}

/// Law: nothing is reported of a packet that starts with neither an announcement nor a moving
/// device that is all there.
pub proof fn law_other_packets_report_nothing(mac: MacAddr, bytes: Seq<u8>)
    requires
        bytes.len() == 0 || (bytes[0] != 0xF0 && bytes[0] != 0x22) || (bytes[0] == 0x22
            && bytes.len() < 2),
    ensures
        reports(mac, bytes).len() == 0,
{
}

/// Law: the address that reaches every node is the one whose six bytes are all 255.
pub proof fn law_broadcast_address(address: [u8; 6])
    ensures
        is_broadcast(address@) <==> {
            &&& address[0] == 255
            &&& address[1] == 255
            &&& address[2] == 255
            &&& address[3] == 255
            &&& address[4] == 255
            &&& address[5] == 255
        },
{
    assert forall|i: int| 0 <= i < 6 implies #[trigger] address@[i] == address[i] by {}
    if is_broadcast(address@) {
        assert(address@[0] == 255 && address@[1] == 255 && address@[2] == 255);
        assert(address@[3] == 255 && address@[4] == 255 && address@[5] == 255);
    }
}

/// Law: what any packet leads to. A sender that is no peer is added and told so by a one. A peer
/// is never added, and is answered, by a zero, if and only if it addressed every node. Answers go
/// to the sender. What is handed on is what the packet reports, and nothing where it reports
/// nothing.
pub proof fn law_frame_reaction(frame: ReceivedFrame, peer_exists: bool, reaction: FrameReaction)
    requires
        call_ensures(on_frame, (frame, peer_exists), reaction),
    ensures
        reaction.new_peer is Some <==> !peer_exists,
        reaction.new_peer matches Some(peer) ==> peer == frame.src_address,
        !peer_exists ==> reaction.reply is Some,
        peer_exists ==> (reaction.reply is Some <==> forall|i: int|
            0 <= i < 6 ==> (#[trigger] frame.dst_address@[i]) == 255),
        reaction.reply matches Some(reply) ==> {
            &&& reply.address == frame.src_address
            &&& reply.data@.len() == 1
            &&& reply.data@[0] == 1 <==> !peer_exists
            &&& reply.data@[0] == 0 <==> peer_exists
        },
        reaction.devices matches Some(devices) ==> devices@.len() > 0,
        ({
            let handed_on = match reaction.devices {
                Some(devices) => devices@,
                None => seq![],
            };
            &&& handed_on.len() == readings(frame.payload()).len()
            &&& forall|i: int|
                0 <= i < handed_on.len() ==> {
                    &&& (#[trigger] handed_on[i]).mac.mac == frame.src_address
                    &&& handed_on[i].device == readings(frame.payload())[i]
                }
        }),
{
}

/// Law: parsing a packet that holds the bytes of moving devices and device type announcements, and
/// then bytes that are no device or none, gives each of those devices, in order, with the address
/// of its sender, and nothing else.
pub proof fn law_packet_is_parsed(
    frame: ReceivedFrame,
    devices: Seq<EspNowDevice>,
    rest: Seq<u8>,
    parsed: Vec<DeviceData>,
)
    requires
        forall|i: int|
            0 <= i < devices.len() ==> (#[trigger] devices[i]) is Moving || devices[i]
                == EspNowDevice::DeviceType(0xF0),
        decoded(rest).0 is Err,
        frame.len <= frame.data@.len(),
        frame.data@.take(frame.len as int) == encoded_all(devices) + rest,
        call_ensures(parse_esp_now_data, (frame,), parsed),
    ensures
        parsed@.len() == devices.len(),
        forall|i: int|
            0 <= i < devices.len() ==> {
                &&& (#[trigger] parsed@[i]).mac.mac == frame.src_address
                &&& parsed@[i].device == devices[i]
            },
{
    law_report_round_trip(MacAddr { mac: frame.src_address }, devices, rest);
}

} // verus!
