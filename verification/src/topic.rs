//! The MQTT topics of a node: one for the state of its devices, one for commands to them.
use crate::mac::{law_mac_text_injective, mac_text, MacAddr};
use vstd::prelude::*;
use vstd::string::StringExecFns;

verus! {

/// The topic that the state of a node's devices is published to.
pub open spec fn state_topic_of(mac: MacAddr) -> Seq<char> {
    mac_text(mac.mac@) + "/state"@
}

/// The topic that commands to a node's devices are published to.
pub open spec fn command_topic_of(mac: MacAddr) -> Seq<char> {
    mac_text(mac.mac@) + "/set"@
}

/// The topic that the state of a node's devices is published to.
pub fn state_topic(mac: &MacAddr) -> (topic: String)
    ensures
        topic@ == state_topic_of(*mac),
{
    mac.to_string().concat("/state")
}

/// The topic that commands to a node's devices are published to.
pub fn command_topic(mac: &MacAddr) -> (topic: String)
    ensures
        topic@ == command_topic_of(*mac),
{
    mac.to_string().concat("/set")
}

/// Law: a topic belongs to one node, and is either for its state or for its commands.
pub proof fn law_topics_distinct(left: MacAddr, right: MacAddr)
    ensures
        state_topic_of(left) == state_topic_of(right) <==> left == right,
        command_topic_of(left) == command_topic_of(right) <==> left == right,
        state_topic_of(left) != command_topic_of(right),
{
    reveal_strlit("/state");
    reveal_strlit("/set");
    law_mac_text_injective(left, right);
    assert(state_topic_of(left).take(17) =~= mac_text(left.mac@));
    assert(state_topic_of(right).take(17) =~= mac_text(right.mac@));
    assert(command_topic_of(left).take(17) =~= mac_text(left.mac@));
    assert(command_topic_of(right).take(17) =~= mac_text(right.mac@));
    assert(state_topic_of(left).len() == 23);
    assert(command_topic_of(right).len() == 21);
}

/// Law: a topic is the text of the node's address, then a slash, then `state` for the state of
/// its devices and `set` for commands to them.
pub proof fn law_topic_layout(mac: MacAddr)
    ensures
        state_topic_of(mac).len() == 23,
        state_topic_of(mac).take(17) == mac_text(mac.mac@),
        state_topic_of(mac).skip(17) == seq!['/', 's', 't', 'a', 't', 'e'],
        command_topic_of(mac).len() == 21,
        command_topic_of(mac).take(17) == mac_text(mac.mac@),
        command_topic_of(mac).skip(17) == seq!['/', 's', 'e', 't'],
{
    reveal_strlit("/state");
    reveal_strlit("/set");
}

} // verus!
