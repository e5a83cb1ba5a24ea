use vstd::prelude::*;

verus! {

/// The order carried by a trade update; only the instrument matters for routing.
pub struct Order {
    pub id: String,
    pub symbol: String,
}

/// One order/trade event: the kind of event (`fill`, `new`, ...) and the order it concerns.
pub struct TradeUpdate {
    pub event: String,
    pub order: Order,
}

/// One decoded event of the upstream feed.
pub enum InboundMessage {
    TradeUpdate(TradeUpdate),
    AccountUpdate,
    /// Any frame that is not routed on its own: acknowledgements, heartbeats, ...
    Other { stream: String },
}

/// Where a message goes: the logical topic and the partition key that orders it.
pub struct RoutingKey {
    pub topic: String,
    pub key: String,
}

} // verus!
