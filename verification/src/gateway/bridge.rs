//! The bridge to the MQTT broker: what to do next, given what has just happened.
use crate::gateway::device::{encoded, DeviceData};
use crate::gateway::payload::{commanded_by_text, is_published_text};
use crate::gateway::registry::{
    command_topics, command_topics_of, find_by_topic, first_with_topic, is_command_topic, is_known,
    law_command_is_routed, law_command_topic_finds_its_node, law_command_topics_end_in_suffix,
    law_report_is_remembered, law_report_is_split, law_split_grows, lemma_first_with_topic, new_devices, split_report, texts,
    updated_devices,
};
use crate::mac::{mac_text, MacAddr};
use crate::packet::EspNowSendData;
use crate::topic::{command_topic_of, law_topic_layout, state_topic_of};
use vstd::prelude::*;

verus! {

/// How long to wait before looking again for the link or an address, in milliseconds.
pub const POLL_DELAY_MS: u64 = 500;

/// How long to wait before a connection to the broker is opened, in milliseconds.
pub const SOCKET_DELAY_MS: u64 = 1000;

/// After how many seconds without a packet the broker drops the connection.
pub const KEEP_ALIVE_SECS: u16 = 60;

/// After how many idle seconds the broker is pinged: five seconds before the keep-alive time is
/// over.
pub fn ping_interval_secs(keep_alive: u16) -> (interval: u16)
    requires
        keep_alive >= 5,
    ensures
        interval == keep_alive - 5,
{
    keep_alive - 5
}

/// A message to publish.
#[derive(Debug)]
pub struct Publication {
    pub topic: String,
    pub payload: String,
}

impl Publication {
    /// Whether this is what is published of a device: a text of the device on its state topic.
    pub open spec fn is_of(self, data: DeviceData) -> bool {
        &&& self.topic@ == state_topic_of(data.mac)
        &&& is_published_text(data.device, self.payload@)
    }
}

/// Whether the publications are those of the devices, one for each and in their order.
pub open spec fn publishes(publications: Seq<Publication>, devices: Seq<DeviceData>) -> bool {
    &&& publications.len() == devices.len()
    &&& forall|i: int|
        0 <= i < devices.len() ==> (#[trigger] publications[i]).is_of(#[trigger] devices[i])
}

/// What the bridge is waiting for.
#[derive(Debug, PartialEq, Eq, Structural, Clone, Copy)]
pub enum Phase {
    /// Whether the network link is up.
    CheckingLink,
    /// The end of a pause before the link is looked at again.
    LinkPause,
    /// Whether the station has an address.
    CheckingAddress,
    /// The end of a pause before the address is looked at again.
    AddressPause,
    /// The end of the pause before a connection is opened.
    SocketPause,
    /// Whether the connection was opened.
    OpeningSocket,
    /// Whether the broker accepted the gateway.
    JoiningBroker,
    /// The ping timer, a message from the broker or a report of devices.
    Listening,
    /// Whether the ping went out.
    Pinging,
    /// Whether the command to the remembered device at this position went out.
    Delivering(usize),
}

/// Something that happened.
pub enum Event {
    LinkChecked(bool),
    AddressChecked(bool),
    Elapsed,
    SocketOpened(bool),
    BrokerJoined(bool),
    Ticked,
    PingSent(bool),
    Received { topic: String, payload: String },
    ReceiveFailed,
    Delivered(bool),
    Reported(Vec<DeviceData>),
}

/// What an event tells.
pub enum EventView {
    LinkChecked(bool),
    AddressChecked(bool),
    Elapsed,
    SocketOpened(bool),
    BrokerJoined(bool),
    Ticked,
    PingSent(bool),
    Received { topic: Seq<char>, payload: Seq<char> },
    ReceiveFailed,
    Delivered(bool),
    Reported(Seq<DeviceData>),
}

impl View for Event {
    type V = EventView;

    open spec fn view(&self) -> EventView {
        match self {
            Event::LinkChecked(up) => EventView::LinkChecked(*up),
            Event::AddressChecked(present) => EventView::AddressChecked(*present),
            Event::Elapsed => EventView::Elapsed,
            Event::SocketOpened(opened) => EventView::SocketOpened(*opened),
            Event::BrokerJoined(joined) => EventView::BrokerJoined(*joined),
            Event::Ticked => EventView::Ticked,
            Event::PingSent(sent) => EventView::PingSent(*sent),
            Event::Received { topic, payload } => EventView::Received {
                topic: topic@,
                payload: payload@,
            },
            Event::ReceiveFailed => EventView::ReceiveFailed,
            Event::Delivered(out) => EventView::Delivered(*out),
            Event::Reported(devices) => EventView::Reported(devices@),
        }
    }
}

impl Event {
    /// Whether the ping timer starts anew: it does whenever the broker was heard, or could not
    /// be heard.
    pub fn restarts_ping_timer(&self) -> (restarts: bool)
        ensures
            restarts == (self@ is Received || self@ is ReceiveFailed),
    {
        match self {
            Event::Received { .. } => true,
            Event::ReceiveFailed => true,
            _ => false,
        }
    }
}

/// Something to do.
pub enum Action {
    CheckLink,
    CheckAddress,
    /// Wait for this many milliseconds.
    Sleep(u64),
    OpenSocket,
    JoinBroker,
    /// Wait for the ping timer, a message or a report.
    Listen,
    Ping,
    /// Send a packet over ESP-NOW and wait for whether it went out.
    Send(EspNowSendData),
    /// Subscribe to the topics, if there are any, then publish the publications one after the
    /// other, whatever comes of it, and listen.
    Announce { topics: Vec<String>, publications: Vec<Publication> },
}

/// What is decided upon an event.
pub enum Decision {
    CheckLink,
    CheckAddress,
    Sleep(u64),
    OpenSocket,
    JoinBroker,
    Listen,
    Ping,
    Send { data: Seq<u8>, address: [u8; 6] },
    /// Subscribe to the topics, and publish the devices.
    Announce { topics: Seq<Seq<char>>, published: Seq<DeviceData> },
}

impl Action {
    /// Whether doing this is what was decided. The order of the fields in a published text is
    /// left open.
    pub open spec fn carries_out(self, decision: Decision) -> bool {
        match decision {
            Decision::CheckLink => self is CheckLink,
            Decision::CheckAddress => self is CheckAddress,
            Decision::Sleep(delay) => self == Action::Sleep(delay),
            Decision::OpenSocket => self is OpenSocket,
            Decision::JoinBroker => self is JoinBroker,
            Decision::Listen => self is Listen,
            Decision::Ping => self is Ping,
            Decision::Send { data, address } => {
                &&& self matches Action::Send(packet)
                &&& packet.data@ == data
                &&& packet.address == address
            },
            Decision::Announce { topics, published } => {
                &&& self matches Action::Announce { topics: subscribed, publications }
                &&& texts(subscribed@) == topics
                &&& publishes(publications@, published)
            },
        }
    }
}

/// The bridge: what it is waiting for, and the devices that it remembers.
pub struct Bridge {
    pub phase: Phase,
    pub remembered: Vec<DeviceData>,
}

/// What a bridge is waiting for, and what it remembers.
pub struct BridgeView {
    pub phase: Phase,
    pub remembered: Seq<DeviceData>,
}

impl View for Bridge {
    type V = BridgeView;

    open spec fn view(&self) -> BridgeView {
        BridgeView { phase: self.phase, remembered: self.remembered@ }
    }
}

impl BridgeView {
    /// A command that is on its way is for a remembered device.
    pub open spec fn wf(self) -> bool {
        match self.phase {
            Phase::Delivering(i) => i < self.remembered.len(),
            _ => true,
        }
    }

    /// Whether an event is one that the bridge is waiting for. Messages are expected on command
    /// topics only.
    pub open spec fn expects(self, event: EventView) -> bool {
        match self.phase {
            Phase::CheckingLink => event is LinkChecked,
            Phase::CheckingAddress => event is AddressChecked,
            Phase::LinkPause => event is Elapsed,
            Phase::AddressPause => event is Elapsed,
            Phase::SocketPause => event is Elapsed,
            Phase::OpeningSocket => event is SocketOpened,
            Phase::JoiningBroker => event is BrokerJoined,
            Phase::Listening => match event {
                EventView::Ticked => true,
                EventView::Received { topic, .. } => is_command_topic(topic),
                EventView::ReceiveFailed => true,
                EventView::Reported(_) => true,
                _ => false,
            },
            Phase::Pinging => event is PingSent,
            Phase::Delivering(_) => event is Delivered,
        }
    }

    /// The bridge in another phase.
    pub open spec fn in_phase(self, phase: Phase) -> BridgeView {
        BridgeView { phase, remembered: self.remembered }
    }

    /// Opening a connection anew, after a pause.
    pub open spec fn reopening(self) -> (BridgeView, Decision) {
        (self.in_phase(Phase::SocketPause), Decision::Sleep(SOCKET_DELAY_MS))
    }
}

/// A device of a node after the command that a text holds.
pub open spec fn commanded_data(data: DeviceData, payload: Seq<char>) -> DeviceData {
    DeviceData { mac: data.mac, device: commanded_by_text(data.device, payload) }
}

/// What the bridge becomes when it hears a message, and what it decides: the command is taken in
/// by the remembered device that has its topic, which is then sent; any other message is passed
/// over.
pub open spec fn on_message(bridge: BridgeView, topic: Seq<char>, payload: Seq<char>) -> (
    BridgeView,
    Decision,
) {
    match first_with_topic(bridge.remembered, topic) {
        Some(i) => {
            let data = commanded_data(bridge.remembered[i], payload);
            (
                BridgeView {
                    phase: Phase::Delivering(i as usize),
                    remembered: bridge.remembered.update(i, data),
                },
                Decision::Send { data: encoded(data.device), address: data.mac.mac },
            )
        },
        None => (bridge, Decision::Listen),
    }
}

/// What the bridge becomes when devices are reported, and what it decides: new devices are
/// remembered and their command topics subscribed to, and the others are published.
pub open spec fn on_report(bridge: BridgeView, reported: Seq<DeviceData>) -> (
    BridgeView,
    Decision,
) {
    (
        BridgeView {
            phase: bridge.phase,
            remembered: bridge.remembered + new_devices(bridge.remembered, reported),
        },
        Decision::Announce {
            topics: command_topics_of(new_devices(bridge.remembered, reported)),
            published: updated_devices(bridge.remembered, reported),
        },
    )
}

/// What the bridge becomes upon an event, and what it decides.
pub open spec fn transition(bridge: BridgeView, event: EventView) -> (BridgeView, Decision) {
    match event {
        EventView::LinkChecked(up) => if up {
            (bridge.in_phase(Phase::CheckingAddress), Decision::CheckAddress)
        } else {
            (bridge.in_phase(Phase::LinkPause), Decision::Sleep(POLL_DELAY_MS))
        },
        EventView::AddressChecked(present) => if present {
            bridge.reopening()
        } else {
            (bridge.in_phase(Phase::AddressPause), Decision::Sleep(POLL_DELAY_MS))
        },
        EventView::Elapsed => match bridge.phase {
            Phase::LinkPause => (bridge.in_phase(Phase::CheckingLink), Decision::CheckLink),
            Phase::AddressPause => (
                bridge.in_phase(Phase::CheckingAddress),
                Decision::CheckAddress,
            ),
            _ => (bridge.in_phase(Phase::OpeningSocket), Decision::OpenSocket),
        },
        EventView::SocketOpened(opened) => if opened {
            (bridge.in_phase(Phase::JoiningBroker), Decision::JoinBroker)
        } else {
            bridge.reopening()
        },
        EventView::BrokerJoined(joined) => if joined {
            (
                bridge.in_phase(Phase::Listening),
                Decision::Announce {
                    topics: command_topics_of(bridge.remembered),
                    published: seq![],
                },
            )
        } else {
            bridge.reopening()
        },
        EventView::Ticked => (bridge.in_phase(Phase::Pinging), Decision::Ping),
        EventView::PingSent(sent) => if sent {
            (bridge.in_phase(Phase::Listening), Decision::Listen)
        } else {
            bridge.reopening()
        },
        EventView::Received { topic, payload } => on_message(bridge, topic, payload),
        EventView::ReceiveFailed => bridge.reopening(),
        EventView::Delivered(out) => if out {
            (
                bridge.in_phase(Phase::Listening),
                Decision::Announce {
                    topics: seq![],
                    published: seq![bridge.remembered[bridge.phase->Delivering_0 as int]],
                },
            )
        } else {
            bridge.reopening()
        },
        EventView::Reported(reported) => on_report(bridge, reported),
    }
}

/// What is published of a device.
fn publication(data: &DeviceData) -> (publication: Publication)
    ensures
        publication.is_of(*data),
{
    Publication { topic: data.state_topic(), payload: data.device.as_json() }
}

/// What is published of devices.
fn publications(devices: &Vec<DeviceData>) -> (publications: Vec<Publication>)
    ensures
        publishes(publications@, devices@),
{
    let mut publications: Vec<Publication> = Vec::new();
    let mut i: usize = 0;
    while i < devices.len()
        invariant
            0 <= i <= devices@.len(),
            publications@.len() == i,
            forall|j: int|
                0 <= j < i ==> (#[trigger] publications@[j]).is_of(#[trigger] devices@[j]),
        decreases devices@.len() - i,
    {
        publications.push(publication(&devices[i]));
        i = i + 1;
    }
    publications
}

impl Bridge {
    /// A bridge that remembers no device and is about to look for the link.
    pub fn new() -> (bridge: Bridge)
        ensures
            bridge@.wf(),
            bridge@.phase == Phase::CheckingLink,
            bridge@.remembered == Seq::<DeviceData>::empty(),
    {
        Bridge { phase: Phase::CheckingLink, remembered: Vec::new() }
    }

    /// Opens a connection anew, after a pause.
    fn reopen(&mut self) -> (action: Action)
        ensures
            final(self)@ == old(self)@.reopening().0,
            action.carries_out(old(self)@.reopening().1),
    {
        self.phase = Phase::SocketPause;
        Action::Sleep(SOCKET_DELAY_MS)
    }

    /// Takes in a message from the broker.
    fn take_message(&mut self, topic: &String, payload: &str) -> (action: Action)
        ensures
            final(self)@ == on_message(old(self)@, topic@, payload@).0,
            action.carries_out(on_message(old(self)@, topic@, payload@).1),
    {
        match find_by_topic(&self.remembered, topic) {
            Some(i) => {
                proof {
                    lemma_first_with_topic(self.remembered@, topic@);
                }
                let mut data: DeviceData = self.remembered[i];
                data.device.set_json(payload);
                self.remembered.set(i, data);
                self.phase = Phase::Delivering(i);
                Action::Send(data.into())
            },
            None => Action::Listen,
        }
    }

    /// Takes in a report of devices.
    fn take_report(&mut self, reported: Vec<DeviceData>) -> (action: Action)
        ensures
            final(self)@ == on_report(old(self)@, reported@).0,
            action.carries_out(on_report(old(self)@, reported@).1),
    {
        let (mut new, updated) = split_report(&self.remembered, &reported);
        let topics = command_topics(&new);
        let publications = publications(&updated);
        self.remembered.append(&mut new);
        Action::Announce { topics, publications }
    }

    /// Takes in an event, and says what to do.
    pub fn step(&mut self, event: Event) -> (action: Action)
        requires
            old(self)@.wf(),
            old(self)@.expects(event@),
        ensures
            final(self)@ == transition(old(self)@, event@).0,
            action.carries_out(transition(old(self)@, event@).1),
            final(self)@.wf(),
    {
        match event {
            Event::LinkChecked(up) => if up {
                self.phase = Phase::CheckingAddress;
                Action::CheckAddress
            } else {
                self.phase = Phase::LinkPause;
                Action::Sleep(POLL_DELAY_MS)
            },
            Event::AddressChecked(present) => if present {
                self.reopen()
            } else {
                self.phase = Phase::AddressPause;
                Action::Sleep(POLL_DELAY_MS)
            },
            Event::Elapsed => match self.phase {
                Phase::LinkPause => {
                    self.phase = Phase::CheckingLink;
                    Action::CheckLink
                },
                Phase::AddressPause => {
                    self.phase = Phase::CheckingAddress;
                    Action::CheckAddress
                },
                _ => {
                    self.phase = Phase::OpeningSocket;
                    Action::OpenSocket
                },
            },
            Event::SocketOpened(opened) => if opened {
                self.phase = Phase::JoiningBroker;
                Action::JoinBroker
            } else {
                self.reopen()
            },
            Event::BrokerJoined(joined) => if joined {
                self.phase = Phase::Listening;
                let topics = command_topics(&self.remembered);
                let publications: Vec<Publication> = Vec::new();
                Action::Announce { topics, publications }
            } else {
                self.reopen()
            },
            Event::Ticked => {
                self.phase = Phase::Pinging;
                Action::Ping
            },
            Event::PingSent(sent) => if sent {
                self.phase = Phase::Listening;
                Action::Listen
            } else {
                self.reopen()
            },
            Event::Received { topic, payload } => {
                proof {
                    lemma_first_with_topic(self.remembered@, topic@);
                }
                self.take_message(&topic, payload.as_str())
            },
            Event::ReceiveFailed => self.reopen(),
            Event::Delivered(out) => match self.phase {
                Phase::Delivering(i) => if out {
                    let published = publication(&self.remembered[i]);
                    self.phase = Phase::Listening;
                    let topics: Vec<String> = Vec::new();
                    let publications: Vec<Publication> = vec![published];
                    assert(texts(topics@) =~= seq![]);
                    Action::Announce { topics, publications }
                } else {
                    self.reopen()
                },
                _ => self.reopen(),
            },
            Event::Reported(reported) => self.take_report(reported),
        }
    }
}

/// Law: remembered devices stay so, in their places and with their nodes. Only a report adds to
/// them, and only a message changes one, the one whose command topic it comes on.
pub proof fn law_devices_stay_remembered(bridge: BridgeView, event: EventView)
    ensures
        ({
            let after = transition(bridge, event).0.remembered;
            &&& bridge.remembered.len() <= after.len()
            &&& !(event is Reported) ==> after.len() == bridge.remembered.len()
            &&& forall|i: int|
                0 <= i < bridge.remembered.len() ==> {
                    &&& (#[trigger] after[i]).mac == bridge.remembered[i].mac
                    &&& after[i] != bridge.remembered[i] ==> {
                        &&& event matches EventView::Received { topic, payload }
                        &&& topic == command_topic_of(bridge.remembered[i].mac)
                        &&& after[i] == commanded_data(bridge.remembered[i], payload)
                    }
                }
        }),
{
    if let EventView::Received { topic, .. } = event {
        lemma_first_with_topic(bridge.remembered, topic);
    }
}

/// Law: a command that is on its way is for a remembered device, whatever happens.
pub proof fn law_bridge_stays_well_formed(bridge: BridgeView, event: EventView)
    requires
        bridge.wf(),
        bridge.expects(event),
        bridge.remembered.len() <= usize::MAX,
    ensures
        transition(bridge, event).0.wf(),
{
    if let EventView::Received { topic, .. } = event {
        lemma_first_with_topic(bridge.remembered, topic);
    }
}

/// Law: whatever fails after the gateway has an address, a connection is opened anew after a
/// pause, and the devices stay remembered.
pub proof fn law_failures_reopen_the_connection(bridge: BridgeView, event: EventView)
    requires
        event == EventView::SocketOpened(false) || event == EventView::BrokerJoined(false) || event
            == EventView::PingSent(false) || event == EventView::Delivered(false) || event
            == EventView::ReceiveFailed,
    ensures
        transition(bridge, event) == bridge.reopening(),
        transition(bridge, event).0.phase == Phase::SocketPause,
        transition(bridge, event).0.remembered == bridge.remembered,
        transition(bridge, event).1 == Decision::Sleep(1000),
        transition(transition(bridge, event).0, EventView::Elapsed) == (
            bridge.in_phase(Phase::OpeningSocket),
            Decision::OpenSocket,
        ),
{
}

/// The topics that are subscribed to by a decision.
pub open spec fn subscribed_by(decision: Decision) -> Set<Seq<char>> {
    match decision {
        Decision::Announce { topics, .. } => topics.to_set(),
        _ => Set::empty(),
    }
}

/// Whether the command topic of each device is among the topics.
pub open spec fn covers(topics: Set<Seq<char>>, devices: Seq<DeviceData>) -> bool {
    forall|i: int|
        0 <= i < devices.len() ==> topics.contains(command_topic_of((#[trigger] devices[i]).mac))
}

/// Law: upon joining the broker the gateway subscribes to the command topic of every remembered
/// device, and from then on to that of each device that it comes to remember.
pub proof fn law_remembered_devices_are_subscribed(
    bridge: BridgeView,
    event: EventView,
    subscribed: Set<Seq<char>>,
)
    ensures
        event == EventView::BrokerJoined(true) ==> covers(
            subscribed_by(transition(bridge, event).1),
            transition(bridge, event).0.remembered,
        ),
        covers(subscribed, bridge.remembered) ==> covers(
            subscribed.union(subscribed_by(transition(bridge, event).1)),
            transition(bridge, event).0.remembered,
        ),
{
    if event == EventView::BrokerJoined(true) {
        lemma_topics_cover(bridge.remembered);
    }
    if let EventView::Received { topic, .. } = event {
        lemma_first_with_topic(bridge.remembered, topic);
    }
    if let EventView::Reported(reported) = event {
        let new = new_devices(bridge.remembered, reported);
        let after = bridge.remembered + new;
        lemma_topics_cover(new);
        if covers(subscribed, bridge.remembered) {
            assert forall|i: int| 0 <= i < after.len() implies subscribed.union(
                command_topics_of(new).to_set(),
            ).contains(command_topic_of((#[trigger] after[i]).mac)) by {
                if i < bridge.remembered.len() {
                    assert(after[i] == bridge.remembered[i]);
                } else {
                    assert(after[i] == new[i - bridge.remembered.len()]);
                }
            }
        }
    }
}

/// The command topics of devices are those of each of them.
proof fn lemma_topics_cover(devices: Seq<DeviceData>)
    ensures
        covers(command_topics_of(devices).to_set(), devices),
{
    assert forall|i: int| 0 <= i < devices.len() implies command_topics_of(
        devices,
    ).to_set().contains(command_topic_of((#[trigger] devices[i]).mac)) by {
        assert(command_topics_of(devices)[i] == command_topic_of(devices[i].mac));
    }
}

/// Law: a message on the command topic of a remembered node is taken in by a remembered device of
/// that node, and what is done is to send that node the device as it then is, and nothing else.
pub proof fn law_command_reaches_its_node(bridge: BridgeView, mac: MacAddr, payload: Seq<char>)
    requires
        bridge.phase == Phase::Listening,
        bridge.remembered.len() <= usize::MAX,
        is_known(bridge.remembered, mac),
    ensures
        bridge.expects(EventView::Received { topic: command_topic_of(mac), payload }),
        ({
            let event = EventView::Received { topic: command_topic_of(mac), payload };
            let (delivering, decision) = transition(bridge, event);
            exists|i: int|
                {
                    &&& 0 <= i < bridge.remembered.len()
                    &&& (#[trigger] bridge.remembered[i]).mac == mac
                    &&& forall|j: int| 0 <= j < i ==> (#[trigger] bridge.remembered[j]).mac != mac
                    &&& delivering.phase == Phase::Delivering(i as usize)
                    &&& delivering.remembered[i] == commanded_data(bridge.remembered[i], payload)
                    &&& decision == Decision::Send {
                        data: encoded(commanded_by_text(bridge.remembered[i].device, payload)),
                        address: mac.mac,
                    }
                }
        }),
{
    law_command_topic_finds_its_node(bridge.remembered, mac);
    law_command_is_routed(bridge.remembered, command_topic_of(mac));
    let i = first_with_topic(bridge.remembered, command_topic_of(mac)).unwrap();
    assert(bridge.remembered[i].mac == mac);
}

/// Law: once a command went out, the device that took it in is published, as it then is, and the
/// gateway listens again. Until then nothing is published.
pub proof fn law_command_is_answered(bridge: BridgeView, mac: MacAddr, payload: Seq<char>)
    requires
        bridge.phase == Phase::Listening,
        bridge.remembered.len() <= usize::MAX,
        is_known(bridge.remembered, mac),
    ensures
        ({
            let event = EventView::Received { topic: command_topic_of(mac), payload };
            let delivering = transition(bridge, event).0;
            let (after, answer) = transition(delivering, EventView::Delivered(true));
            let i = delivering.phase->Delivering_0 as int;
            &&& delivering.expects(EventView::Delivered(true))
            &&& 0 <= i < bridge.remembered.len()
            &&& bridge.remembered[i].mac == mac
            &&& answer == Decision::Announce {
                topics: seq![],
                published: seq![commanded_data(bridge.remembered[i], payload)],
            }
            &&& after == BridgeView {
                phase: Phase::Listening,
                remembered: bridge.remembered.update(
                    i,
                    commanded_data(bridge.remembered[i], payload),
                ),
            }
        }),
{
    law_command_topic_finds_its_node(bridge.remembered, mac);
}

/// Law: a message on the command topic of a node that is not remembered is passed over.
pub proof fn law_unknown_command_is_passed_over(
    bridge: BridgeView,
    mac: MacAddr,
    payload: Seq<char>,
)
    requires
        !is_known(bridge.remembered, mac),
    ensures
        transition(bridge, EventView::Received { topic: command_topic_of(mac), payload }) == (
            bridge,
            Decision::Listen,
        ),
{
    law_command_topic_finds_its_node(bridge.remembered, mac);
}

/// Law: where every reported node is remembered, each device of the report is published, and
/// nothing more is subscribed to or remembered.
pub proof fn law_known_devices_are_published(bridge: BridgeView, reported: Seq<DeviceData>)
    requires
        forall|i: int|
            0 <= i < reported.len() ==> is_known(bridge.remembered, (#[trigger] reported[i]).mac),
    ensures
        transition(bridge, EventView::Reported(reported)) == (
            bridge,
            Decision::Announce { topics: seq![], published: reported },
        ),
{
    let new = new_devices(bridge.remembered, reported);
    lemma_all_updated(bridge.remembered, reported);
    law_report_is_split(bridge.remembered, reported);
    assert(new =~= seq![]);
    assert(bridge.remembered + new =~= bridge.remembered);
    assert(command_topics_of(new) =~= seq![]);
}

/// Law: devices that are reported again are all published, and nothing more is subscribed to.
pub proof fn law_second_report_is_published(bridge: BridgeView, reported: Seq<DeviceData>)
    ensures
        ({
            let once = transition(bridge, EventView::Reported(reported)).0;
            transition(once, EventView::Reported(reported)) == (
                once,
                Decision::Announce { topics: seq![], published: reported },
            )
        }),
{
    let once = transition(bridge, EventView::Reported(reported)).0;
    law_report_is_remembered(bridge.remembered, reported);
    assert forall|i: int| 0 <= i < reported.len() implies is_known(
        once.remembered,
        (#[trigger] reported[i]).mac,
    ) by {
        assert(is_known(reported, reported[i].mac));
    }
    law_known_devices_are_published(once, reported);
}

/// Where every reported node is known, the whole report is an update.
proof fn lemma_all_updated(remembered: Seq<DeviceData>, reported: Seq<DeviceData>)
    requires
        forall|i: int|
            0 <= i < reported.len() ==> is_known(remembered, (#[trigger] reported[i]).mac),
    ensures
        updated_devices(remembered, reported) == reported,
    decreases reported.len(),
{
    reveal(Seq::filter);
    if reported.len() > 0 {
        let earlier = reported.drop_last();
        assert forall|i: int| 0 <= i < earlier.len() implies is_known(
            remembered,
            (#[trigger] earlier[i]).mac,
        ) by {
            assert(earlier[i] == reported[i]);
        }
        lemma_all_updated(remembered, earlier);
        assert(is_known(remembered, reported[reported.len() - 1].mac));
        assert(earlier.push(reported.last()) =~= reported);
    } else {
        assert(updated_devices(remembered, reported) =~= reported);
    }
}

/// Law: whatever is remembered, the ping timer leads to a ping and to nothing else; once the ping
/// went out the gateway listens again, remembering what it did.
pub proof fn law_broker_is_pinged(bridge: BridgeView)
    requires
        bridge.phase == Phase::Listening,
    ensures
        bridge.expects(EventView::Ticked),
        ({
            let (pinging, decision) = transition(bridge, EventView::Ticked);
            let (after, next) = transition(pinging, EventView::PingSent(true));
            &&& decision == Decision::Ping
            &&& pinging.phase == Phase::Pinging
            &&& pinging.remembered == bridge.remembered
            &&& pinging.expects(EventView::PingSent(true))
            &&& pinging.expects(EventView::PingSent(false))
            &&& next == Decision::Listen
            &&& after.phase == Phase::Listening
            &&& after.remembered == bridge.remembered
        }),
{
}

/// Law: a ping is due five seconds before the broker, which waits for a minute, drops an idle
/// connection; and its timer starts anew upon a message or a failure to receive one, and upon
/// nothing else.
pub proof fn law_ping_comes_in_time(keep_alive: u16, interval: u16, event: Event, restarts: bool)
    requires
        keep_alive >= 5,
        call_ensures(ping_interval_secs, (keep_alive,), interval),
        call_ensures(Event::restarts_ping_timer, (&event,), restarts),
    ensures
        KEEP_ALIVE_SECS == 60,
        interval + 5 == keep_alive,
        event is Received ==> restarts,
        event is ReceiveFailed ==> restarts,
        !(event is Received) && !(event is ReceiveFailed) ==> !restarts,
{
}

/// Law: the link is looked at every half second until it is up, and then the address is, every
/// half second until there is one.
pub proof fn law_link_and_address_are_polled(bridge: BridgeView)
    requires
        bridge.phase == Phase::CheckingLink || bridge.phase == Phase::CheckingAddress,
    ensures
        bridge.phase == Phase::CheckingLink ==> {
            let (up, look) = transition(bridge, EventView::LinkChecked(true));
            let (down, wait) = transition(bridge, EventView::LinkChecked(false));
            let (again, retry) = transition(down, EventView::Elapsed);
            &&& bridge.expects(EventView::LinkChecked(true))
            &&& bridge.expects(EventView::LinkChecked(false))
            &&& up.phase == Phase::CheckingAddress
            &&& up.remembered == bridge.remembered
            &&& look == Decision::CheckAddress
            &&& down.expects(EventView::Elapsed)
            &&& down.remembered == bridge.remembered
            &&& wait == Decision::Sleep(500)
            &&& again.phase == Phase::CheckingLink
            &&& again.remembered == bridge.remembered
            &&& retry == Decision::CheckLink
        },
        bridge.phase == Phase::CheckingAddress ==> {
            let (found, pause) = transition(bridge, EventView::AddressChecked(true));
            let (missing, wait) = transition(bridge, EventView::AddressChecked(false));
            let (again, retry) = transition(missing, EventView::Elapsed);
            &&& bridge.expects(EventView::AddressChecked(true))
            &&& bridge.expects(EventView::AddressChecked(false))
            &&& found.phase == Phase::SocketPause
            &&& found.remembered == bridge.remembered
            &&& pause == Decision::Sleep(1000)
            &&& missing.expects(EventView::Elapsed)
            &&& missing.remembered == bridge.remembered
            &&& wait == Decision::Sleep(500)
            &&& again.phase == Phase::CheckingAddress
            &&& again.remembered == bridge.remembered
            &&& retry == Decision::CheckAddress
        },
{
}

/// Law: from a pause before a connection, if nothing fails, the connection is opened, the broker
/// joined, and the command topic of each remembered device subscribed to, in order and nothing
/// else; nothing is published, and then the gateway listens. What is remembered stays so.
pub proof fn law_connection_is_opened(bridge: BridgeView)
    requires
        bridge.phase == Phase::SocketPause,
    ensures
        bridge.expects(EventView::Elapsed),
        ({
            let (opening, open) = transition(bridge, EventView::Elapsed);
            let (joining, join) = transition(opening, EventView::SocketOpened(true));
            let (listening, announce) = transition(joining, EventView::BrokerJoined(true));
            &&& opening.phase == Phase::OpeningSocket
            &&& opening.remembered == bridge.remembered
            &&& open == Decision::OpenSocket
            &&& opening.expects(EventView::SocketOpened(true))
            &&& opening.expects(EventView::SocketOpened(false))
            &&& joining.phase == Phase::JoiningBroker
            &&& joining.remembered == bridge.remembered
            &&& join == Decision::JoinBroker
            &&& joining.expects(EventView::BrokerJoined(true))
            &&& joining.expects(EventView::BrokerJoined(false))
            &&& listening.phase == Phase::Listening
            &&& listening.remembered == bridge.remembered
            &&& announce matches Decision::Announce { topics, published }
            &&& published.len() == 0
            &&& topics.len() == bridge.remembered.len()
            &&& forall|i: int|
                0 <= i < topics.len() ==> (#[trigger] topics[i]) == command_topic_of(
                    bridge.remembered[i].mac,
                )
        }),
{
}

/// Law: while the gateway listens it takes in the ping timer, a failure to receive, any report,
/// and any message on a command topic; and whatever else it waits for can always come.
pub proof fn law_what_is_expected(
    bridge: BridgeView,
    reported: Seq<DeviceData>,
    topic: Seq<char>,
    payload: Seq<char>,
    outcome: bool,
)
    ensures
        bridge.phase == Phase::Listening ==> {
            &&& bridge.expects(EventView::Ticked)
            &&& bridge.expects(EventView::ReceiveFailed)
            &&& bridge.expects(EventView::Reported(reported))
            &&& bridge.expects(
                EventView::Received { topic: topic + seq!['/', 's', 'e', 't'], payload },
            )
        },
        bridge.phase is Delivering ==> bridge.expects(EventView::Delivered(outcome)),
        bridge.phase is Pinging ==> bridge.expects(EventView::PingSent(outcome)),
        !(bridge.phase is Delivering) ==> bridge.wf(),
        bridge.phase matches Phase::Delivering(i) ==> (bridge.wf() <==> i
            < bridge.remembered.len()),
{
    law_command_topics_end_in_suffix(topic, topic);
}

/// Law: once a command that is on its way to a remembered device went out, that device is
/// published and no other, nothing is subscribed to, and the gateway listens again, remembering
/// what it did.
pub proof fn law_delivery_is_published(bridge: BridgeView, i: usize)
    requires
        bridge.phase == Phase::Delivering(i),
        i < bridge.remembered.len(),
    ensures
        ({
            let (after, decision) = transition(bridge, EventView::Delivered(true));
            &&& after.phase == Phase::Listening
            &&& after.remembered == bridge.remembered
            &&& decision matches Decision::Announce { topics, published }
            &&& topics.len() == 0
            &&& published.len() == 1
            &&& published[0] == bridge.remembered[i as int]
        }),
{
}

/// Law: a message on a topic that is no remembered device's command topic changes nothing, and
/// the gateway goes on listening.
pub proof fn law_other_messages_are_passed_over(
    bridge: BridgeView,
    topic: Seq<char>,
    payload: Seq<char>,
)
    requires
        forall|i: int|
            0 <= i < bridge.remembered.len() ==> command_topic_of(
                (#[trigger] bridge.remembered[i]).mac,
            ) != topic,
    ensures
        transition(bridge, EventView::Received { topic, payload }).0 == bridge,
        transition(bridge, EventView::Received { topic, payload }).1 == Decision::Listen,
{
    law_command_is_routed(bridge.remembered, topic);
}

/// Law: a command to a device leaves its node as it is, and does to the device what its text
/// says.
pub proof fn law_command_keeps_node(data: DeviceData, payload: Seq<char>)
    ensures
        commanded_data(data, payload).mac == data.mac,
        commanded_data(data, payload).device == commanded_by_text(data.device, payload),
{
}

/// Law: an empty report changes and announces nothing; and with one more device in a report, what
/// is done is the same but for that device. If its node was remembered before the report, the
/// device is published last. If not, it is remembered last, and its command topic is subscribed
/// to last.
pub proof fn law_report_grows(bridge: BridgeView, reported: Seq<DeviceData>, data: DeviceData)
    ensures
        ({
            let (after, decision) = transition(bridge, EventView::Reported(Seq::empty()));
            &&& after.phase == bridge.phase
            &&& after.remembered == bridge.remembered
            &&& decision matches Decision::Announce { topics, published }
            &&& topics.len() == 0
            &&& published.len() == 0
        }),
        ({
            let (less, fewer) = transition(bridge, EventView::Reported(reported));
            let (more, decision) = transition(bridge, EventView::Reported(reported.push(data)));
            let known = is_known(bridge.remembered, data.mac);
            &&& more.phase == bridge.phase
            &&& less.phase == bridge.phase
            &&& fewer matches Decision::Announce { topics: less_topics, published: less_published }
            &&& decision matches Decision::Announce { topics, published }
            &&& known ==> {
                &&& more.remembered == less.remembered
                &&& topics == less_topics
                &&& published == less_published.push(data)
            }
            &&& !known ==> {
                &&& more.remembered == less.remembered.push(data)
                &&& topics == less_topics.push(command_topic_of(data.mac))
                &&& published == less_published
            }
        }),
{
    law_split_grows(bridge.remembered, reported, data);
    let new = new_devices(bridge.remembered, reported);
    let none = new_devices(bridge.remembered, Seq::empty());
    assert(none =~= Seq::empty());
    assert(bridge.remembered + none =~= bridge.remembered);
    assert(bridge.remembered + new.push(data) =~= (bridge.remembered + new).push(data));
    assert(command_topics_of(new.push(data)) =~= command_topics_of(new).push(
        command_topic_of(data.mac),
    ));
}

/// Law: each decision is carried out by the action of its name and no other, for as long as it
/// says, with the bytes to the address that it says, or with the topics that it says.
pub proof fn law_actions_carry_out_decisions(
    action: Action,
    delay: u64,
    data: Seq<u8>,
    address: [u8; 6],
    topics: Seq<Seq<char>>,
    published: Seq<DeviceData>,
)
    ensures
        action.carries_out(Decision::CheckLink) <==> action is CheckLink,
        action.carries_out(Decision::CheckAddress) <==> action is CheckAddress,
        action.carries_out(Decision::OpenSocket) <==> action is OpenSocket,
        action.carries_out(Decision::JoinBroker) <==> action is JoinBroker,
        action.carries_out(Decision::Listen) <==> action is Listen,
        action.carries_out(Decision::Ping) <==> action is Ping,
        action.carries_out(Decision::Sleep(delay)) <==> action is Sleep && action->Sleep_0 == delay,
        action.carries_out(Decision::Send { data, address }) ==> {
            &&& action matches Action::Send(packet)
            &&& packet.data@ == data
            &&& packet.address == address
        },
        action.carries_out(Decision::Announce { topics, published }) ==> {
            &&& action matches Action::Announce { topics: subscribed, publications }
            &&& subscribed@.len() == topics.len()
            &&& forall|i: int|
                0 <= i < topics.len() ==> (#[trigger] subscribed@[i])@ == topics[i]
            &&& publications@.len() == published.len()
            &&& forall|i: int|
                0 <= i < published.len() ==> {
                    &&& (#[trigger] publications@[i]).topic@.take(17) == mac_text(
                        published[i].mac.mac@,
                    )
                    &&& publications@[i].topic@.skip(17) == seq!['/', 's', 't', 'a', 't', 'e']
                    &&& is_published_text(published[i].device, publications@[i].payload@)
                }
        },
{
    if action.carries_out(Decision::Announce { topics, published }) {
        if let Action::Announce { topics: subscribed, publications } = action {
            assert forall|i: int| 0 <= i < topics.len() implies (#[trigger] subscribed@[i])@
                == topics[i] by {
                assert(texts(subscribed@)[i] == subscribed@[i]@);
            }
            assert forall|i: int| 0 <= i < published.len() implies {
                &&& (#[trigger] publications@[i]).topic@.take(17) == mac_text(
                    published[i].mac.mac@,
                )
                &&& publications@[i].topic@.skip(17) == seq!['/', 's', 't', 'a', 't', 'e']
                &&& is_published_text(published[i].device, publications@[i].payload@)
            } by {
                assert(publications@[i].is_of(published[i]));
                law_topic_layout(published[i].mac);
            }
        }
    }
}

/// Law: what an event tells is what it holds, and a bridge is waiting for and remembers what its
/// fields say.
pub proof fn law_views_show_contents(event: Event, bridge: Bridge)
    ensures
        event matches Event::LinkChecked(up) ==> event@ == EventView::LinkChecked(up),
        event matches Event::AddressChecked(present) ==> event@ == EventView::AddressChecked(
            present,
        ),
        event matches Event::Elapsed ==> event@ == EventView::Elapsed,
        event matches Event::SocketOpened(opened) ==> event@ == EventView::SocketOpened(opened),
        event matches Event::BrokerJoined(joined) ==> event@ == EventView::BrokerJoined(joined),
        event matches Event::Ticked ==> event@ == EventView::Ticked,
        event matches Event::PingSent(sent) ==> event@ == EventView::PingSent(sent),
        event matches Event::Received { topic, payload } ==> event@ == (EventView::Received {
            topic: topic@,
            payload: payload@,
        }),
        event matches Event::ReceiveFailed ==> event@ == EventView::ReceiveFailed,
        event matches Event::Delivered(out) ==> event@ == EventView::Delivered(out),
        event matches Event::Reported(devices) ==> event@ == EventView::Reported(devices@),
        bridge@.phase == bridge.phase,
        bridge@.remembered == bridge.remembered@,
{
}

/// Law: a new bridge waits for whether the link is up, and knows no node.
pub proof fn law_bridge_starts_empty(bridge: Bridge, up: bool, mac: MacAddr)
    requires
        call_ensures(Bridge::new, (), bridge),
    ensures
        bridge@.wf(),
        bridge@.expects(EventView::LinkChecked(up)),
        !is_known(bridge@.remembered, mac),
{
}

/// Law: how a step keeps the gateway connected. The ping timer leads to a ping, and a ping that
/// went out to listening; whatever fails leads to a pause of a second and then to a new
/// connection; the link and the address are looked at every half second. Only messages and
/// reports touch what is remembered.
pub proof fn law_step_keeps_connected()
    ensures
        forall|bridge: &mut Bridge, event: Event, action: Action|
            #[trigger] call_ensures(Bridge::step, (bridge, event), action) ==> {
                let before = *bridge;
                let after = *final(bridge);
                &&& !(event is Received) && !(event is Reported) ==> after.remembered@
                    == before.remembered@
                &&& event is Ticked ==> action is Ping && after.phase == Phase::Pinging
                &&& event == Event::PingSent(true) ==> action is Listen && after.phase
                    == Phase::Listening
                &&& event == Event::PingSent(false) || event == Event::SocketOpened(false) || event
                    == Event::BrokerJoined(false) || event == Event::Delivered(false)
                    || event is ReceiveFailed || event == Event::AddressChecked(true) ==> action
                    == Action::Sleep(1000) && after.phase == Phase::SocketPause
                &&& event == Event::LinkChecked(true) ==> action is CheckAddress && after.phase
                    == Phase::CheckingAddress
                &&& event == Event::LinkChecked(false) ==> action == Action::Sleep(500)
                    && after.phase == Phase::LinkPause
                &&& event == Event::AddressChecked(false) ==> action == Action::Sleep(500)
                    && after.phase == Phase::AddressPause
                &&& event is Elapsed && before.phase == Phase::LinkPause ==> action is CheckLink
                    && after.phase == Phase::CheckingLink
                &&& event is Elapsed && before.phase == Phase::AddressPause ==> action
                    is CheckAddress && after.phase == Phase::CheckingAddress
                &&& event is Elapsed && before.phase == Phase::SocketPause ==> action is OpenSocket
                    && after.phase == Phase::OpeningSocket
                &&& event == Event::SocketOpened(true) ==> action is JoinBroker && after.phase
                    == Phase::JoiningBroker
                &&& event == Event::BrokerJoined(true) ==> {
                    &&& after.phase == Phase::Listening
                    &&& action matches Action::Announce { topics, publications }
                    &&& publications@.len() == 0
                    &&& texts(topics@) == command_topics_of(before.remembered@)
                }
            },
{
}

/// Law: how a step takes a command in. One on the command topic of a remembered node is sent to
/// that node, as the bytes of its first remembered device after the command; and once it went
/// out, that device is published, and nothing else. Any other message changes nothing.
pub proof fn law_step_delivers_commands(mac: MacAddr)
    ensures
        forall|bridge: &mut Bridge, event: Event, action: Action|
            #[trigger] call_ensures(Bridge::step, (bridge, event), action) ==> {
                let before = *bridge;
                let after = *final(bridge);
                &&& event matches Event::Received { topic, payload } ==> topic@ == command_topic_of(
                    mac,
                ) ==> {
                    &&& !is_known(before.remembered@, mac) ==> {
                        &&& after@ == before@
                        &&& action is Listen
                    }
                    &&& is_known(before.remembered@, mac) ==> {
                        let i = first_with_topic(before.remembered@, topic@).unwrap();
                        let device = commanded_by_text(
                            before.remembered@[i].device,
                            payload@,
                        );
                        &&& 0 <= i < before.remembered@.len()
                        &&& before.remembered@[i].mac == mac
                        &&& after.remembered@ == before.remembered@.update(
                            i,
                            DeviceData { mac, device },
                        )
                        &&& after.phase == Phase::Delivering(i as usize)
                        &&& action matches Action::Send(packet)
                        &&& packet.address == mac.mac
                        &&& packet.data@ == encoded(device)
                    }
                }
                &&& event == Event::Delivered(true) ==> (before.phase matches Phase::Delivering(i)
                    ==> {
                    &&& after.phase == Phase::Listening
                    &&& action matches Action::Announce { topics, publications }
                    &&& topics@.len() == 0
                    &&& publications@.len() == 1
                    &&& publications@[0].is_of(before.remembered@[i as int])
                })
            },
{
    assert forall|devices: Seq<DeviceData>| true implies {
        let found = #[trigger] first_with_topic(devices, command_topic_of(mac));
        &&& found is Some <==> is_known(devices, mac)
        &&& found matches Some(i) ==> 0 <= i < devices.len() && devices[i].mac == mac
    } by {
        law_command_topic_finds_its_node(devices, mac);
    }
    assert forall|bridge: &mut Bridge, event: Event, action: Action|
        #[trigger] call_ensures(Bridge::step, (bridge, event), action) && event
            == Event::Delivered(true) && (*bridge).phase is Delivering implies {
        &&& action matches Action::Announce { topics, publications }
        &&& topics@.len() == 0
        &&& publications@.len() == 1
        &&& publications@[0].is_of((*bridge).remembered@[(*bridge).phase->Delivering_0 as int])
    } by {
        let data = (*bridge).remembered@[(*bridge).phase->Delivering_0 as int];
        if let Action::Announce { topics, publications } = action {
            assert(texts(topics@).len() == 0);
            assert(publications@[0].is_of(seq![data][0]));
        }
    }
}

/// Law: how a step takes a report in. Devices of nodes that are not remembered come to be, after
/// those that are, and their command topics are subscribed to; the others are published, each
/// once and in order, and change nothing that is remembered.
pub proof fn law_step_takes_reports_in()
    ensures
        forall|bridge: &mut Bridge, event: Event, action: Action|
            #[trigger] call_ensures(Bridge::step, (bridge, event), action) ==> {
                let before = (*bridge).remembered@;
                let after = (*final(bridge)).remembered@;
                event matches Event::Reported(reported) ==> {
                    &&& (*final(bridge)).phase == (*bridge).phase
                    &&& after == before + new_devices(before, reported@)
                    &&& action matches Action::Announce { topics, publications }
                    &&& texts(topics@) == command_topics_of(new_devices(before, reported@))
                    &&& publishes(publications@, updated_devices(before, reported@))
                }
            },
{
}

} // verus!
