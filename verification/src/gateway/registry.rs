//! The devices that the gateway remembers: which ones are new, what their topics are, and which
//! one a command is for.
use crate::gateway::device::DeviceData;
use crate::mac::{mac_text, MacAddr};
use crate::topic::{command_topic_of, law_topic_layout, law_topics_distinct};
use vstd::prelude::*;
use vstd::string::StrSliceExecFns;

verus! {

/// How many topics a subscription can name.
pub const MAX_MQTT_DEVICES: usize = 64;

/// Whether a node is among the remembered ones.
pub open spec fn is_known(remembered: Seq<DeviceData>, mac: MacAddr) -> bool {
    exists|i: int| 0 <= i < remembered.len() && (#[trigger] remembered[i]).mac == mac
}

/// The reported devices of nodes that are not remembered, in the order of the report.
pub open spec fn new_devices(
    remembered: Seq<DeviceData>,
    reported: Seq<DeviceData>,
) -> Seq<DeviceData> {
    reported.filter(|data: DeviceData| !is_known(remembered, data.mac))
}

/// The reported devices of remembered nodes, in the order of the report.
pub open spec fn updated_devices(
    remembered: Seq<DeviceData>,
    reported: Seq<DeviceData>,
) -> Seq<DeviceData> {
    reported.filter(|data: DeviceData| is_known(remembered, data.mac))
}

/// The command topics of devices.
pub open spec fn command_topics_of(devices: Seq<DeviceData>) -> Seq<Seq<char>> {
    devices.map_values(|data: DeviceData| command_topic_of(data.mac))
}

/// The texts of strings.
pub open spec fn texts(strings: Seq<String>) -> Seq<Seq<char>> {
    strings.map_values(|string: String| string@)
}

/// The position of the first device with the given command topic.
pub open spec fn first_with_topic(devices: Seq<DeviceData>, topic: Seq<char>) -> Option<int>
    decreases devices.len(),
{
    if devices.len() == 0 {
        None
    } else {
        match first_with_topic(devices.drop_last(), topic) {
            Some(i) => Some(i),
            None => if command_topic_of(devices.last().mac) == topic {
                Some(devices.len() - 1)
            } else {
                None
            },
        }
    }
}

/// Whether a topic ends in the command suffix.
pub open spec fn is_command_topic(topic: Seq<char>) -> bool {
    topic.len() >= 4 && topic.skip(topic.len() - 4) == "/set"@
}

/// Whether a node is among the remembered ones.
pub fn knows(remembered: &Vec<DeviceData>, mac: &MacAddr) -> (known: bool)
    ensures
        known == is_known(remembered@, *mac),
{
    let mut i: usize = 0;
    while i < remembered.len()
        invariant
            0 <= i <= remembered@.len(),
            forall|j: int| 0 <= j < i ==> (#[trigger] remembered@[j]).mac != *mac,
        decreases remembered@.len() - i,
    {
        if remembered[i].mac == *mac {
            assert(remembered@[i as int].mac == *mac);
            return true;
        }
        i = i + 1;
    }
    false
}

/// Splits a report into the devices of nodes that are not remembered and those of nodes that
/// are.
pub fn split_report(remembered: &Vec<DeviceData>, reported: &Vec<DeviceData>) -> (split: (
    Vec<DeviceData>,
    Vec<DeviceData>,
))
    ensures
        split.0@ == new_devices(remembered@, reported@),
        split.1@ == updated_devices(remembered@, reported@),
{
    let mut new: Vec<DeviceData> = Vec::new();
    let mut updated: Vec<DeviceData> = Vec::new();
    let mut i: usize = 0;
    proof {
        reveal(Seq::filter);
        assert(reported@.take(0) =~= seq![]);
    }
    while i < reported.len()
        invariant
            0 <= i <= reported@.len(),
            new@ == new_devices(remembered@, reported@.take(i as int)),
            updated@ == updated_devices(remembered@, reported@.take(i as int)),
        decreases reported@.len() - i,
    {
        let data: DeviceData = reported[i];
        proof {
            reveal(Seq::filter);
            assert(reported@.take(i + 1).drop_last() =~= reported@.take(i as int));
            assert(reported@.take(i + 1).last() == data);
        }
        if knows(remembered, &data.mac) {
            updated.push(data);
        } else {
            new.push(data);
        }
        i = i + 1;
    }
    assert(reported@.take(reported@.len() as int) =~= reported@);
    (new, updated)
}

/// The command topics of devices.
pub fn command_topics(devices: &Vec<DeviceData>) -> (topics: Vec<String>)
    ensures
        texts(topics@) == command_topics_of(devices@),
{
    let mut topics: Vec<String> = Vec::new();
    let mut i: usize = 0;
    while i < devices.len()
        invariant
            0 <= i <= devices@.len(),
            topics@.len() == i,
            forall|j: int|
                0 <= j < i ==> (#[trigger] topics@[j])@ == command_topic_of(devices@[j].mac),
        decreases devices@.len() - i,
    {
        topics.push(devices[i].command_topic());
        i = i + 1;
    }
    assert(texts(topics@) =~= command_topics_of(devices@));
    topics
}

/// Whether a topic ends in the command suffix.
pub fn has_command_suffix(topic: &str) -> (command: bool)
    ensures
        command == is_command_topic(topic@),
{
    let length: usize = topic.unicode_len();
    if length < 4 {
        return false;
    }
    let suffix: String = topic.substring_char(length - 4, length).to_owned();
    assert(suffix@ =~= topic@.skip(length - 4));
    suffix == "/set".to_owned()
}

/// The position of the first device with the given command topic.
pub fn find_by_topic(devices: &Vec<DeviceData>, topic: &String) -> (found: Option<usize>)
    ensures
        found matches Some(i) ==> first_with_topic(devices@, topic@) == Some(i as int),
        found is None <==> first_with_topic(devices@, topic@) is None,
{
    let mut i: usize = 0;
    assert(devices@.take(0) =~= seq![]);
    while i < devices.len()
        invariant
            0 <= i <= devices@.len(),
            first_with_topic(devices@.take(i as int), topic@) is None,
        decreases devices@.len() - i,
    {
        assert(devices@.take(i + 1).drop_last() =~= devices@.take(i as int));
        if devices[i].command_topic() == *topic {
            proof {
                lemma_first_stays_first(devices@, topic@, i + 1);
            }
            return Some(i);
        }
        i = i + 1;
    }
    assert(devices@.take(devices@.len() as int) =~= devices@);
    None
}

/// The first device with a topic among the first few is the first one of all.
proof fn lemma_first_stays_first(devices: Seq<DeviceData>, topic: Seq<char>, count: int)
    requires
        0 <= count <= devices.len(),
        first_with_topic(devices.take(count), topic) is Some,
    ensures
        first_with_topic(devices, topic) == first_with_topic(devices.take(count), topic),
    decreases devices.len(),
{
    if count == devices.len() {
        assert(devices.take(count) =~= devices);
    } else {
        assert(devices.drop_last().take(count) =~= devices.take(count));
        lemma_first_stays_first(devices.drop_last(), topic, count);
    }
}

/// `heapless::Vec`: a list of limited length.
#[verifier::external_type_specification]
#[verifier::external_body]
#[verifier::reject_recursive_types(T)]
pub struct ExTopicList<T, const N: usize>(heapless::Vec<T, N>);

/// What a list of topics holds, in order.
pub uninterp spec fn topic_list_contents(
    list: heapless::Vec<&str, MAX_MQTT_DEVICES>,
) -> Seq<Seq<char>>;

/// `heapless::Vec` collected from an iterator: the items in the order in which they come. It
/// panics where there are more of them than the list can hold.
#[verifier::external_body]
fn collect_topics(topics: &Vec<String>) -> (list: heapless::Vec<&str, MAX_MQTT_DEVICES>)
    requires
        topics@.len() <= MAX_MQTT_DEVICES,
    ensures
        topic_list_contents(list) == texts(topics@),
{
    topics.iter().map(|topic| topic.as_str()).collect()
}

/// The list of topics to subscribe to; `None` where there are none.
pub fn subscription(topics: &Vec<String>) -> (list: Option<heapless::Vec<&str, MAX_MQTT_DEVICES>>)
    requires
        topics@.len() <= MAX_MQTT_DEVICES,
    ensures
        list is Some <==> topics@.len() > 0,
        list matches Some(l) ==> topic_list_contents(l) == texts(topics@),
{
    if topics.len() == 0 {
        None
    } else {
        Some(collect_topics(topics))
    }
}

/// No two of the devices belong to the same node.
pub open spec fn one_per_node(devices: Seq<DeviceData>) -> bool {
    forall|i: int, j: int|
        0 <= i < j < devices.len() ==> (#[trigger] devices[i]).mac != (#[trigger] devices[j]).mac
}

/// Law: each reported device is either new or an update, never both, and nothing else is.
pub proof fn law_report_is_split(remembered: Seq<DeviceData>, reported: Seq<DeviceData>)
    ensures
        new_devices(remembered, reported).len() + updated_devices(remembered, reported).len()
            == reported.len(),
        forall|data: DeviceData|
            #[trigger] new_devices(remembered, reported).contains(data) <==> reported.contains(data)
                && !is_known(remembered, data.mac),
        forall|data: DeviceData|
            #[trigger] updated_devices(remembered, reported).contains(data) <==> reported.contains(data)
                && is_known(remembered, data.mac),
    decreases reported.len(),
{
    let unknown = |data: DeviceData| !is_known(remembered, data.mac);
    let known = |data: DeviceData| is_known(remembered, data.mac);
    lemma_filter_members(reported, unknown);
    lemma_filter_members(reported, known);
    reveal(Seq::filter);
    if reported.len() > 0 {
        law_report_is_split(remembered, reported.drop_last());
    }
}

/// A filtered sequence holds the items of the sequence that meet the condition.
proof fn lemma_filter_members(devices: Seq<DeviceData>, condition: spec_fn(DeviceData) -> bool)
    ensures
        forall|data: DeviceData| #[trigger]
            devices.filter(condition).contains(data) <==> devices.contains(data) && condition(data),
{
    broadcast use {
        Seq::lemma_filter_pred,
        Seq::lemma_filter_contains,
        Seq::lemma_filter_contains_rev,
    };

    assert forall|data: DeviceData| #[trigger]
        devices.filter(condition).contains(data) <==> devices.contains(data) && condition(data) by {
        if devices.contains(data) && condition(data) {
            let i = choose|i: int| 0 <= i < devices.len() && devices[i] == data;
            assert(devices.filter(condition).contains(devices[i]));
        }
        if devices.filter(condition).contains(data) {
            let filtered = devices.filter(condition);
            let i = choose|i: int| 0 <= i < filtered.len() && filtered[i] == data;
            assert(condition(devices.filter(condition)[i]));
        }
    }
}

/// Law: once the new devices of a report are remembered, every node of the report is known,
/// those that were known before still are, and the same report brings nothing new.
pub proof fn law_report_is_remembered(remembered: Seq<DeviceData>, reported: Seq<DeviceData>)
    ensures
        forall|mac: MacAddr|
            is_known(remembered + new_devices(remembered, reported), mac) <==> is_known(
                remembered,
                mac,
            ) || is_known(reported, mac),
        new_devices(remembered + new_devices(remembered, reported), reported).len() == 0,
{
    let new = new_devices(remembered, reported);
    let after = remembered + new;
    law_report_is_split(remembered, reported);
    assert forall|mac: MacAddr| is_known(after, mac) <==> is_known(remembered, mac) || is_known(
        reported,
        mac,
    ) by {
        if is_known(remembered, mac) {
            let i = choose|i: int| 0 <= i < remembered.len() && (#[trigger] remembered[i]).mac == mac;
            assert(after[i].mac == mac);
        } else if is_known(reported, mac) {
            let i = choose|i: int| 0 <= i < reported.len() && (#[trigger] reported[i]).mac == mac;
            assert(reported.contains(reported[i]));
            assert(new.contains(reported[i]));
            let j = choose|j: int| 0 <= j < new.len() && new[j] == reported[i];
            assert(after[remembered.len() + j].mac == mac);
        }
        if is_known(after, mac) {
            let i = choose|i: int| 0 <= i < after.len() && (#[trigger] after[i]).mac == mac;
            if i < remembered.len() {
                assert(remembered[i].mac == mac);
            } else {
                let data = new[i - remembered.len()];
                assert(new.contains(data));
                let j = choose|j: int| 0 <= j < reported.len() && reported[j] == data;
                assert(reported[j].mac == mac);
            }
        }
    }
    law_report_is_split(after, reported);
    let again = new_devices(after, reported);
    if again.len() > 0 {
        let data = again[0];
        assert(again.contains(data));
        let j = choose|j: int| 0 <= j < reported.len() && reported[j] == data;
        assert(reported[j].mac == data.mac);
        assert(is_known(reported, data.mac));
    }
}

/// Law: a report that names each node once keeps the remembered devices free of repeated
/// nodes.
pub proof fn law_one_device_per_node(remembered: Seq<DeviceData>, reported: Seq<DeviceData>)
    requires
        one_per_node(remembered),
        one_per_node(reported),
    ensures
        one_per_node(remembered + new_devices(remembered, reported)),
    decreases reported.len(),
{
    let new = new_devices(remembered, reported);
    let after = remembered + new;
    reveal(Seq::filter);
    if reported.len() > 0 {
        let earlier = reported.drop_last();
        assert forall|i: int, j: int| 0 <= i < j < earlier.len() implies (
        #[trigger] earlier[i]).mac != (#[trigger] earlier[j]).mac by {
            assert(reported[i].mac != reported[j].mac);
        }
        law_one_device_per_node(remembered, earlier);
        let before = remembered + new_devices(remembered, earlier);
        let last = reported.last();
        law_report_is_split(remembered, earlier);
        if is_known(remembered, last.mac) {
            assert(after =~= before);
        } else {
            assert(after =~= before.push(last));
            assert forall|i: int| 0 <= i < before.len() implies (#[trigger] before[i]).mac
                != last.mac by {
                if i < remembered.len() {
                    assert(remembered[i].mac != last.mac);
                } else {
                    let data = new_devices(remembered, earlier)[i - remembered.len()];
                    assert(new_devices(remembered, earlier).contains(data));
                    let j = choose|j: int| 0 <= j < earlier.len() && earlier[j] == data;
                    assert(reported[j].mac != reported[reported.len() - 1].mac);
                }
            }
        }
    } else {
        assert(after =~= remembered);
    }
}

/// What the search for a command topic finds: the first device that has it.
pub proof fn lemma_first_with_topic(devices: Seq<DeviceData>, topic: Seq<char>)
    ensures
        first_with_topic(devices, topic) matches Some(i) ==> {
            &&& 0 <= i < devices.len()
            &&& command_topic_of(devices[i].mac) == topic
            &&& forall|j: int|
                0 <= j < i ==> command_topic_of((#[trigger] devices[j]).mac) != topic
        },
        first_with_topic(devices, topic) is None ==> forall|j: int|
            0 <= j < devices.len() ==> command_topic_of((#[trigger] devices[j]).mac) != topic,
    decreases devices.len(),
{
    if devices.len() > 0 {
        lemma_first_with_topic(devices.drop_last(), topic);
        assert forall|j: int| 0 <= j < devices.len() - 1 implies (
        #[trigger] devices[j]) == devices.drop_last()[j] by {}
    }
}

/// Law: a message is for the first remembered device of the node whose command topic it comes on,
/// and for none where no remembered node has that topic.
pub proof fn law_command_is_routed(devices: Seq<DeviceData>, topic: Seq<char>)
    ensures
        forall|i: int|
            0 <= i < devices.len() ==> (first_with_topic(devices, topic) == Some(i) <==> {
                &&& topic == command_topic_of((#[trigger] devices[i]).mac)
                &&& forall|j: int| 0 <= j < i ==> (#[trigger] devices[j]).mac != devices[i].mac
            }),
        first_with_topic(devices, topic) is None <==> forall|i: int|
            0 <= i < devices.len() ==> command_topic_of((#[trigger] devices[i]).mac) != topic,
{
    lemma_first_with_topic(devices, topic);
    assert forall|i: int, j: int| 0 <= i < devices.len() && 0 <= j < devices.len() implies (
    command_topic_of((#[trigger] devices[j]).mac) == command_topic_of((#[trigger] devices[i]).mac)
        <==> devices[j].mac == devices[i].mac) by {
        law_topics_distinct(devices[j].mac, devices[i].mac);
    }
}

/// Law: a message on the command topic of a node is for a remembered device of that node, if
/// there is one.
pub proof fn law_command_topic_finds_its_node(devices: Seq<DeviceData>, mac: MacAddr)
    ensures
        is_command_topic(command_topic_of(mac)),
        first_with_topic(devices, command_topic_of(mac)) is Some <==> is_known(devices, mac),
        first_with_topic(devices, command_topic_of(mac)) matches Some(i) ==> {
            &&& 0 <= i < devices.len()
            &&& devices[i].mac == mac
        },
{
    reveal_strlit("/set");
    let topic = command_topic_of(mac);
    assert(topic.skip(topic.len() - 4) =~= "/set"@);
    lemma_first_with_topic(devices, topic);
    assert forall|i: int| 0 <= i < devices.len() implies (command_topic_of(
        (#[trigger] devices[i]).mac,
    ) == topic <==> devices[i].mac == mac) by {
        law_topics_distinct(devices[i].mac, mac);
    }
}

/// Law: no node is known to begin with, and one more remembered device makes its node known and
/// changes nothing for the others.
pub proof fn law_known_nodes_grow(remembered: Seq<DeviceData>, data: DeviceData, mac: MacAddr)
    ensures
        !is_known(Seq::empty(), mac),
        is_known(remembered.push(data), mac) <==> is_known(remembered, mac) || data.mac == mac,
{
    let after = remembered.push(data);
    if is_known(remembered, mac) {
        let i = choose|i: int| 0 <= i < remembered.len() && (#[trigger] remembered[i]).mac == mac;
        assert(after[i].mac == mac);
    }
    if data.mac == mac {
        assert(after[remembered.len() as int].mac == mac);
    }
    if is_known(after, mac) {
        let i = choose|i: int| 0 <= i < after.len() && (#[trigger] after[i]).mac == mac;
        if i < remembered.len() {
            assert(remembered[i].mac == mac);
        }
    }
}

/// Law: an empty report is split into nothing, and one more reported device comes last among the
/// updated ones if its node is known, last among the new ones if it is not, and changes nothing
/// for the others.
pub proof fn law_split_grows(
    remembered: Seq<DeviceData>,
    reported: Seq<DeviceData>,
    data: DeviceData,
)
    ensures
        new_devices(remembered, Seq::empty()).len() == 0,
        updated_devices(remembered, Seq::empty()).len() == 0,
        is_known(remembered, data.mac) ==> {
            &&& new_devices(remembered, reported.push(data)) == new_devices(remembered, reported)
            &&& updated_devices(remembered, reported.push(data)) == updated_devices(
                remembered,
                reported,
            ).push(data)
        },
        !is_known(remembered, data.mac) ==> {
            &&& new_devices(remembered, reported.push(data)) == new_devices(
                remembered,
                reported,
            ).push(data)
            &&& updated_devices(remembered, reported.push(data)) == updated_devices(
                remembered,
                reported,
            )
        },
{
    reveal(Seq::filter);
    assert(reported.push(data).drop_last() =~= reported);
    assert(reported.push(data).last() == data);
}

/// Law: each device has its command topic, in the order of the devices, and each string its text.
pub proof fn law_topics_are_listed(devices: Seq<DeviceData>, strings: Seq<String>)
    ensures
        command_topics_of(devices).len() == devices.len(),
        forall|i: int|
            0 <= i < devices.len() ==> {
                &&& (#[trigger] command_topics_of(devices)[i]).take(17) == mac_text(
                    devices[i].mac.mac@,
                )
                &&& command_topics_of(devices)[i].skip(17) == seq!['/', 's', 'e', 't']
            },
        texts(strings).len() == strings.len(),
        forall|i: int|
            0 <= i < strings.len() ==> (#[trigger] texts(strings)[i]) == strings[i]@,
{
    assert forall|i: int| 0 <= i < devices.len() implies {
        &&& (#[trigger] command_topics_of(devices)[i]).take(17) == mac_text(devices[i].mac.mac@)
        &&& command_topics_of(devices)[i].skip(17) == seq!['/', 's', 'e', 't']
    } by {
        law_topic_layout(devices[i].mac);
    }
}

/// Law: the command topics are the texts that end in a slash and `set`.
pub proof fn law_command_topics_end_in_suffix(name: Seq<char>, topic: Seq<char>)
    ensures
        is_command_topic(name + seq!['/', 's', 'e', 't']),
        is_command_topic(topic) ==> topic == topic.take(topic.len() - 4) + seq!['/', 's', 'e', 't'],
{
    reveal_strlit("/set");
    let suffix = seq!['/', 's', 'e', 't'];
    assert("/set"@ =~= suffix);
    assert((name + suffix).skip(name.len() as int) =~= suffix);
    if is_command_topic(topic) {
        assert(topic =~= topic.take(topic.len() - 4) + topic.skip(topic.len() - 4));
    }
}

} // verus!
