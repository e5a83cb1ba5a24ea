use alpaca_data_relay::{Action, InboundMessage, Order, PublishFailure, Pulled, Relay, TradeUpdate};

fn trade(symbol: &str) -> InboundMessage {
    InboundMessage::TradeUpdate(TradeUpdate {
        event: "new".to_string(),
        order: Order { id: "61e69015".to_string(), symbol: symbol.to_string() },
    })
}

fn received(message: InboundMessage, payload: &str) -> Pulled {
    Pulled::Received { message, payload: Ok(payload.to_string()) }
}

fn expect_publish(a: Action) -> (String, String, String) {
    match a {
        Action::Publish { topic, key, payload } => (topic, key, payload),
        _ => panic!("expected a publish"),
    }
}

#[test]
fn trade_update_is_published_once() {
    let mut relay = Relay::new(None);
    let a = relay.on_pulled(received(trade("AAPL"), "{\"stream\":\"trade_updates\"}"));
    let (topic, key, payload) = expect_publish(a);
    assert_eq!(topic, "overmuse-trades");
    assert_eq!(key, "AAPL");
    assert_eq!(payload, "{\"stream\":\"trade_updates\"}");
    assert_eq!(relay.pending(), 1);
}

#[test]
fn account_update_is_published_under_account() {
    let mut relay = Relay::new(None);
    let (topic, key, _) = expect_publish(relay.on_pulled(received(InboundMessage::AccountUpdate, "{}")));
    assert_eq!(topic, "account");
    assert_eq!(key, "account");
}

#[test]
fn heartbeat_is_published_under_meta() {
    let mut relay = Relay::new(None);
    let m = InboundMessage::Other { stream: "heartbeat".to_string() };
    let (topic, key, _) = expect_publish(relay.on_pulled(received(m, "{}")));
    assert_eq!(topic, "meta");
    assert_eq!(key, "meta");
}

#[test]
fn serialize_failure_is_reported_and_not_published() {
    let mut relay = Relay::new(None);
    let a = relay.on_pulled(Pulled::Received { message: trade("IBM"), payload: Err("bad shape".to_string()) });
    match a {
        Action::ReportSerializeFailure { message, cause } => {
            assert_eq!(cause, "bad shape");
            match message {
                InboundMessage::TradeUpdate(t) => assert_eq!(t.order.symbol, "IBM"),
                _ => panic!("wrong message"),
            }
        }
        _ => panic!("expected a serialisation report"),
    }
    assert_eq!(relay.pending(), 0);
    assert!(relay.can_pull());
    let (_, key, _) = expect_publish(relay.on_pulled(received(trade("GE"), "{}")));
    assert_eq!(key, "GE");
}

#[test]
fn publish_failure_is_reported_and_relay_goes_on() {
    let mut relay = Relay::new(None);
    expect_publish(relay.on_pulled(received(trade("AAPL"), "p1")));
    let failure = PublishFailure { key: "AAPL".to_string(), payload: "p1".to_string(), cause: "timed out".to_string() };
    match relay.on_published(Err(failure)) {
        Action::ReportPublishFailure(f) => {
            assert_eq!(f.key, "AAPL");
            assert_eq!(f.payload, "p1");
            assert_eq!(f.cause, "timed out");
        }
        _ => panic!("expected a publish report"),
    }
    assert_eq!(relay.pending(), 0);
    assert!(!relay.is_closed());
    assert!(relay.can_pull());
    expect_publish(relay.on_pulled(received(trade("AAPL"), "p2")));
}

#[test]
fn receive_failure_is_reported_and_relay_goes_on() {
    let mut relay = Relay::new(None);
    match relay.on_pulled(Pulled::Broken { cause: "malformed frame".to_string() }) {
        Action::ReportReceiveFailure { cause } => assert_eq!(cause, "malformed frame"),
        _ => panic!("expected a receive report"),
    }
    assert!(relay.can_pull());
    assert_eq!(relay.pending(), 0);
}

#[test]
fn failures_do_not_stop_later_items() {
    let mut relay = Relay::new(None);
    let items = vec![
        received(trade("A"), "1"),
        Pulled::Broken { cause: "lost".to_string() },
        Pulled::Received { message: trade("B"), payload: Err("x".to_string()) },
        received(trade("C"), "4"),
    ];
    let mut keys = Vec::new();
    for item in items {
        assert!(relay.can_pull());
        if let Action::Publish { key, .. } = relay.on_pulled(item) {
            keys.push(key);
        }
    }
    assert_eq!(keys, vec!["A", "C"]);
    assert_eq!(relay.pending(), 2);
}

#[test]
fn same_key_is_published_in_order() {
    let mut relay = Relay::new(None);
    let mut sent = Vec::new();
    for (symbol, payload) in [("AAPL", "a"), ("MSFT", "m"), ("AAPL", "b")] {
        let (_, key, payload) = expect_publish(relay.on_pulled(received(trade(symbol), payload)));
        sent.push((key, payload));
    }
    let aapl: Vec<&str> = sent.iter().filter(|(k, _)| k == "AAPL").map(|(_, p)| p.as_str()).collect();
    assert_eq!(aapl, vec!["a", "b"]);
}

#[test]
fn end_with_nothing_pending_is_done() {
    let mut relay = Relay::new(None);
    assert!(matches!(relay.on_pulled(Pulled::Ended), Action::Close));
    assert!(relay.is_closed());
    assert!(relay.is_done());
    assert!(!relay.can_pull());
}

#[test]
fn three_messages_then_end() {
    let mut relay = Relay::new(Some(1));
    let mut publishes = 0;
    for symbol in ["AAPL", "MSFT", "GOOG"] {
        assert!(relay.can_pull());
        expect_publish(relay.on_pulled(received(trade(symbol), "{}")));
        publishes += 1;
        assert!(!relay.can_pull());
        assert!(matches!(relay.on_published(Ok(())), Action::Nothing));
    }
    assert!(matches!(relay.on_pulled(Pulled::Ended), Action::Close));
    assert_eq!(publishes, 3);
    assert!(relay.is_done());
}

#[test]
fn end_waits_for_pending_publishes() {
    let mut relay = Relay::new(Some(0));
    expect_publish(relay.on_pulled(received(trade("AAPL"), "1")));
    expect_publish(relay.on_pulled(received(trade("MSFT"), "2")));
    assert!(relay.can_pull());
    assert!(matches!(relay.on_pulled(Pulled::Ended), Action::Close));
    assert!(!relay.is_done());
    relay.on_published(Ok(()));
    assert!(!relay.is_done());
    relay.on_published(Ok(()));
    assert!(relay.is_done());
}

#[test]
fn bound_on_in_flight_is_respected() {
    let mut relay = Relay::new(Some(2));
    expect_publish(relay.on_pulled(received(trade("A"), "1")));
    assert!(relay.can_pull());
    expect_publish(relay.on_pulled(received(trade("B"), "2")));
    assert!(!relay.can_pull());
    relay.on_published(Ok(()));
    assert!(relay.can_pull());
}
