//! Relays a live feed of brokerage events into a partitioned log: each event is
//! routed to a topic and a partition key, and the relay decides, item by item,
//! what to publish and what to report, without ever stopping on a bad item.
pub mod message;
pub mod routing;
pub mod relay;
pub mod settings;

pub use message::{InboundMessage, Order, RoutingKey, TradeUpdate};
pub use routing::{classify, get_key, get_topic};
pub use relay::{Action, PublishFailure, Pulled, Relay};
pub use settings::{subscribed_streams, AlpacaSettings, SentrySettings};
