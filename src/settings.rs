use vstd::prelude::*;
use vstd::string::StringExecFns;

verus! {

/// Connection settings of the upstream brokerage feed.
pub struct AlpacaSettings {
    pub streaming_url: String,
    pub key_id: String,
    pub secret_key: String,
    pub account_updates: bool,
    pub trade_updates: bool,
}

/// Where crash reports are sent.
pub struct SentrySettings {
    pub address: String,
}

/// Name of the upstream stream of order/trade events.
pub const TRADE_UPDATES_STREAM: &'static str = "trade_updates";

/// Name of the upstream stream of account events.
pub const ACCOUNT_UPDATES_STREAM: &'static str = "account_updates";

/// The upstream streams to subscribe to: trade events first, then account events,
/// each only where the settings ask for it.
pub open spec fn streams_of(s: AlpacaSettings) -> Seq<Seq<char>> {
    (if s.trade_updates { seq![TRADE_UPDATES_STREAM@] } else { Seq::empty() })
        + (if s.account_updates { seq![ACCOUNT_UPDATES_STREAM@] } else { Seq::empty() })
}

/// The names of the upstream streams that a connection made with these settings
/// subscribes to.
pub fn subscribed_streams(settings: &AlpacaSettings) -> (r: Vec<String>)
    ensures
        r@.len() == streams_of(*settings).len(),
        forall|i: int| 0 <= i < r@.len() ==> (#[trigger] r@[i])@ == streams_of(*settings)[i],
{
    let mut events: Vec<String> = Vec::new();
    if settings.trade_updates {
        events.push(String::from_str(TRADE_UPDATES_STREAM));
    }
    if settings.account_updates {
        events.push(String::from_str(ACCOUNT_UPDATES_STREAM));
    }
    events
}

} // verus!
