use vstd::prelude::*;

use crate::checkpoint::{admits, recorded, BridgeState, CheckpointView};
use crate::formatter::{format_message, message_prefix, message_prefix_of, plain_body, rich_body};
use crate::potatomesh::{PotatoMessage, PotatoNode};
use crate::puppet::{
    display_name,
    display_name_of,
    localpart_from_node_id,
    opt_view,
    puppet_prefix,
    user_id,
};
use crate::text::strip_leading;

verus! {

/// Whether `msgs` is ordered by receipt time.
pub open spec fn sorted_by_receipt(msgs: Seq<PotatoMessage>) -> bool {
    forall|i: int, j: int| 0 <= i < j < msgs.len() ==> msgs[i].rx_time <= msgs[j].rx_time
}

/// Relies on `slice::sort_by_key` of std: it reorders the elements so that
/// their keys ascend.
#[verifier::external_body]
fn sort_by_receipt_time(msgs: &mut Vec<PotatoMessage>)
    ensures
        final(msgs)@.to_multiset() == old(msgs)@.to_multiset(),
        sorted_by_receipt(final(msgs)@),
{
    msgs.sort_by_key(|m| m.rx_time)
}

/// Puts a fetched batch in delivery order: ascending receipt time.
pub fn order_messages(msgs: Vec<PotatoMessage>) -> (r: Vec<PotatoMessage>)
    ensures
        r@.to_multiset() == msgs@.to_multiset(),
        sorted_by_receipt(r@),
{
    let mut r = msgs;
    sort_by_receipt_time(&mut r);
    r
}

/// What the forwarding loop does with one fetched message.
#[derive(Clone, Copy, Debug, PartialEq, Eq, Structural)]
pub enum Step {
    /// Already delivered: leave the checkpoint alone.
    Skip,
    /// Not a text message: advance the checkpoint without relaying.
    RecordOnly,
    /// Relay to the room, then advance the checkpoint.
    Relay,
}

/// Whether a port tag marks a text message; an absent tag counts as one.
pub open spec fn is_text_port(portnum: Option<String>) -> bool {
    match portnum {
        None => true,
        Some(p) => p@ == "TEXT_MESSAGE_APP"@,
    }
}

pub open spec fn step_of(c: CheckpointView, msg: PotatoMessage) -> Step {
    if !admits(c, msg.id, msg.rx_time) {
        Step::Skip
    } else if !is_text_port(msg.portnum) {
        Step::RecordOnly
    } else {
        Step::Relay
    }
}

/// Decides the step for `msg` against the checkpoint.
pub fn next_step(state: &BridgeState, msg: &PotatoMessage) -> (r: Step)
    ensures
        r == step_of(state@, *msg),
{
    if !state.should_forward(msg) {
        return Step::Skip;
    }
    match &msg.portnum {
        Some(port) => {
            let text_port = String::from_str("TEXT_MESSAGE_APP");
            if *port == text_port {
                Step::Relay
            } else {
                Step::RecordOnly
            }
        },
        None => Step::Relay,
    }
}

impl BridgeState {
    /// Settles one message after its step ran: the checkpoint advances past
    /// it for a recorded-only message and for a relay that succeeded, and
    /// stays as it is otherwise. Returns whether the checkpoint changed and
    /// must be persisted.
    pub fn settle(&mut self, msg: &PotatoMessage, step: Step, relayed: bool) -> (persist: bool)
        requires
            old(self).wf(),
        ensures
            persist == (step == Step::RecordOnly || (step == Step::Relay && relayed)),
            persist ==> final(self)@ == recorded(old(self)@, msg.id, msg.rx_time),
            !persist ==> final(self)@ == old(self)@,
            final(self).wf(),
    {
        let advance = match step {
            Step::Skip => false,
            Step::RecordOnly => true,
            Step::Relay => relayed,
        };
        if advance {
            self.record(msg);
        }
        advance
    }
}

/// Everything needed to relay one message as its node's puppet.
#[derive(Clone, Debug)]
pub struct RelayPlan {
    pub localpart: String,
    pub user_id: String,
    pub display_name: String,
    pub plain: String,
    pub rich: String,
}

/// Works out the puppet identity and the message bodies for relaying `msg`,
/// sent by `node`, on the homeserver `server_name`.
pub fn plan_relay(msg: &PotatoMessage, node: &PotatoNode, server_name: &str) -> (r: RelayPlan)
    ensures
        r.localpart@ == puppet_prefix() + strip_leading(msg.node_id@, '!'),
        r.user_id@ == seq!['@'] + r.localpart@ + seq![':'] + server_name@,
        r.display_name@ == display_name_of(node.long_name@, opt_view(node.short_name)),
        r.plain@ == plain_body(
            message_prefix_of(msg.lora_freq as nat, msg.modem_preset@, msg.channel_name@),
            msg.text@,
        ),
        r.rich@ == rich_body(
            message_prefix_of(msg.lora_freq as nat, msg.modem_preset@, msg.channel_name@),
            msg.text@,
        ),
{
    let localpart = localpart_from_node_id(msg.node_id.as_str());
    let uid = user_id(localpart.as_str(), server_name);
    let name = display_name(node);
    let prefix = message_prefix(msg.lora_freq, msg.modem_preset.as_str(), msg.channel_name.as_str());
    let (plain, rich) = format_message(prefix.as_str(), msg.text.as_str());
    RelayPlan { localpart, user_id: uid, display_name: name, plain, rich }
}

} // verus!
