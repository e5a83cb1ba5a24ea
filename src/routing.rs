use vstd::prelude::*;
use vstd::string::StringExecFns;

use crate::message::{InboundMessage, RoutingKey};

verus! {

/// Topic that receives order/trade events.
pub const TRADES_TOPIC: &'static str = "overmuse-trades";

/// Topic that receives account events.
pub const ACCOUNT_TOPIC: &'static str = "account";

/// Topic that receives every other frame.
pub const META_TOPIC: &'static str = "meta";

/// Partition key shared by all account events.
pub const ACCOUNT_KEY: &'static str = "account";

/// Partition key shared by all other frames.
pub const META_KEY: &'static str = "meta";

/// The topic a message is published to.
pub open spec fn topic_of(m: InboundMessage) -> Seq<char> {
    match m {
        InboundMessage::TradeUpdate(_) => TRADES_TOPIC@,
        InboundMessage::AccountUpdate => ACCOUNT_TOPIC@,
        InboundMessage::Other { .. } => META_TOPIC@,
    }
}

/// The partition key of a message: the instrument for trade events, a constant otherwise.
pub open spec fn key_of(m: InboundMessage) -> Seq<char> {
    match m {
        InboundMessage::TradeUpdate(t) => t.order.symbol@,
        InboundMessage::AccountUpdate => ACCOUNT_KEY@,
        InboundMessage::Other { .. } => META_KEY@,
    }
}

/// Topic of a message.
pub fn get_topic(m: &InboundMessage) -> (r: &'static str)
    ensures
        r@ == topic_of(*m),
{
    match m {
        InboundMessage::TradeUpdate(_) => TRADES_TOPIC,
        InboundMessage::AccountUpdate => ACCOUNT_TOPIC,
        InboundMessage::Other { .. } => META_TOPIC,
    }
}

/// Partition key of a message, borrowed from it or constant.
pub fn get_key(m: &InboundMessage) -> (r: &str)
    ensures
        r@ == key_of(*m),
{
    match m {
        InboundMessage::TradeUpdate(t) => t.order.symbol.as_str(),
        InboundMessage::AccountUpdate => ACCOUNT_KEY,
        InboundMessage::Other { .. } => META_KEY,
    }
}

/// Topic and partition key of a message. Total: every message has exactly one.
pub fn classify(m: &InboundMessage) -> (r: RoutingKey)
    ensures
        r.topic@ == topic_of(*m),
        r.key@ == key_of(*m),
{
    RoutingKey { topic: String::from_str(get_topic(m)), key: String::from_str(get_key(m)) }
}

/// Every message is routed in one of exactly three ways: trade events to the trades
/// topic under their instrument, account events to the account topic under the key
/// `account`, and everything else to the meta topic under the key `meta`.
pub proof fn lemma_routing_is_one_of_three(m: InboundMessage)
    ensures
        (m is TradeUpdate && topic_of(m) == TRADES_TOPIC@ && key_of(m) == m->TradeUpdate_0.order.symbol@)
            || (m is AccountUpdate && topic_of(m) == ACCOUNT_TOPIC@ && key_of(m) == ACCOUNT_KEY@)
            || (m is Other && topic_of(m) == META_TOPIC@ && key_of(m) == META_KEY@),
        topic_of(m) == TRADES_TOPIC@ || topic_of(m) == ACCOUNT_TOPIC@ || topic_of(m) == META_TOPIC@,
{
}

} // verus!
