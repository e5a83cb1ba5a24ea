use vstd::prelude::*;
use vstd::string::StringExecFns;

use crate::message::InboundMessage;
use crate::routing::{get_key, get_topic, key_of, topic_of};

verus! {

/// One item pulled from the upstream stream, together with what serialising it gave.
pub enum Pulled {
    /// A decoded message and its payload, or the reason it could not be encoded.
    Received { message: InboundMessage, payload: Result<String, String> },
    /// The stream failed to receive or decode a frame.
    Broken { cause: String },
    /// The stream ended.
    Ended,
}

/// A publish that the downstream client rejected, with what was sent.
pub struct PublishFailure {
    pub key: String,
    pub payload: String,
    pub cause: String,
}

/// What the caller is to do after handing the relay an event.
pub enum Action {
    /// Send `payload` to `topic` under partition key `key`.
    Publish { topic: String, key: String, payload: String },
    /// Report a frame the stream could not deliver.
    ReportReceiveFailure { cause: String },
    /// Report a message that could not be encoded; it is not published.
    ReportSerializeFailure { message: InboundMessage, cause: String },
    /// Report a publish that failed; it is not retried.
    ReportPublishFailure(PublishFailure),
    /// Nothing to do.
    Nothing,
    /// The stream is over: stop pulling.
    Close,
}

/// Abstract state of a relay: whether its stream has ended, how many publishes are
/// in flight, and the bound on them (`0`: no bound).
pub struct RelayState {
    pub closed: bool,
    pub pending: nat,
    pub limit: nat,
}

/// The relay's decisions between an inbound stream and a publish sink.
pub struct Relay {
    closed: bool,
    pending: u64,
    limit: u64,
}

impl View for Relay {
    type V = RelayState;

    closed spec fn view(&self) -> RelayState {
        RelayState { closed: self.closed, pending: self.pending as nat, limit: self.limit as nat }
    }
}

/// Whether `a` is the answer to the pulled item `p`: a message that encoded is
/// published under its routing key, any failure is reported, the end closes.
pub open spec fn answers(p: Pulled, a: Action) -> bool {
    match p {
        Pulled::Received { message, payload: Ok(text) } => {
            &&& a matches Action::Publish { topic, key, payload }
            &&& topic@ == topic_of(message)
            &&& key@ == key_of(message)
            &&& payload == text
        },
        Pulled::Received { message, payload: Err(cause) } => {
            a == (Action::ReportSerializeFailure { message, cause })
        },
        Pulled::Broken { cause } => a == (Action::ReportReceiveFailure { cause }),
        Pulled::Ended => a == Action::Close,
    }
}

/// Whether pulling `p` starts a publish.
pub open spec fn publishes(p: Pulled) -> bool {
    p matches Pulled::Received { payload: Ok(_), .. }
}

/// The state after an item is pulled.
pub open spec fn after_pulled(s: RelayState, p: Pulled) -> RelayState {
    if publishes(p) {
        RelayState { pending: s.pending + 1, ..s }
    } else if p is Ended {
        RelayState { closed: true, ..s }
    } else {
        s
    }
}

/// The state after each of `items` is pulled in turn.
pub open spec fn after_all(s: RelayState, items: Seq<Pulled>) -> RelayState
    decreases items.len(),
{
    if items.len() == 0 {
        s
    } else {
        after_pulled(after_all(s, items.drop_last()), items.last())
    }
}

/// The (partition key, payload) pairs that the sink is asked to publish, in order,
/// when `items` are pulled in turn.
pub open spec fn sent(items: Seq<Pulled>) -> Seq<(Seq<char>, String)>
    decreases items.len(),
{
    if items.len() == 0 {
        Seq::empty()
    } else if publishes(items.last()) {
        sent(items.drop_last()).push(
            (key_of(items.last()->message), items.last()->payload->Ok_0),
        )
    } else {
        sent(items.drop_last())
    }
}

/// Whether a relay in state `s` may pull another item.
pub open spec fn may_pull(s: RelayState) -> bool {
    !s.closed && (s.limit == 0 || s.pending < s.limit)
}

/// Whether a relay in state `s` is done: its stream ended and nothing is in flight.
pub open spec fn done(s: RelayState) -> bool {
    s.closed && s.pending == 0
}

/// A failed item changes nothing: a frame the stream could not deliver, or a message
/// that could not be encoded, leaves the relay in the state it was in.
pub proof fn lemma_failure_changes_nothing(s: RelayState, p: Pulled)
    requires
        p is Broken || p matches Pulled::Received { payload: Err(_), .. },
    ensures
        after_pulled(s, p) == s,
{
}

/// One failing item never halts the items after it: from a running relay, after any
/// items that are not the end of the stream, whichever of them failed, the relay is
/// still running (so the next item is pulled and answered on its own), and exactly
/// the items that encoded are in flight.
pub proof fn lemma_failures_do_not_stop(s: RelayState, items: Seq<Pulled>)
    requires
        !s.closed,
        forall|i: int| 0 <= i < items.len() ==> !(#[trigger] items[i] is Ended),
    ensures
        !after_all(s, items).closed,
        after_all(s, items).limit == s.limit,
        after_all(s, items).pending == s.pending + sent(items).len(),
    decreases items.len(),
{
    if items.len() > 0 {
        let front = items.drop_last();
        assert forall|i: int| 0 <= i < front.len() implies !(#[trigger] front[i] is Ended) by {
            assert(front[i] == items[i]);
        }
        lemma_failures_do_not_stop(s, front);
        assert(!(items[items.len() - 1] is Ended));
    }
}

/// What is sent for the first `k` items is a prefix of what is sent for the first `n`.
proof fn lemma_sent_prefix(items: Seq<Pulled>, k: int, n: int)
    requires
        0 <= k <= n <= items.len(),
    ensures
        sent(items.take(k)).len() <= sent(items.take(n)).len(),
        forall|j: int|
            0 <= j < sent(items.take(k)).len() ==> #[trigger] sent(items.take(k))[j] == sent(
                items.take(n),
            )[j],
    decreases n - k,
{
    if k < n {
        lemma_sent_prefix(items, k, n - 1);
        assert(items.take(n).drop_last() =~= items.take(n - 1));
    }
}

/// An item that is published adds its key and payload to what is sent.
proof fn lemma_sent_step(items: Seq<Pulled>, a: int)
    requires
        0 <= a < items.len(),
        publishes(items[a]),
    ensures
        sent(items.take(a + 1)) == sent(items.take(a)).push(
            (key_of(items[a]->message), items[a]->payload->Ok_0),
        ),
{
    assert(items.take(a + 1).drop_last() =~= items.take(a));
    assert(items.take(a + 1).last() == items[a]);
}

/// Per-key order: of two items published under the same partition key, the one
/// pulled first is handed to the sink first. Item `a` is sent at position
/// `sent(items.take(a)).len()`, and that position comes before the one of `b`.
pub proof fn lemma_same_key_in_order(items: Seq<Pulled>, a: int, b: int)
    requires
        0 <= a < b < items.len(),
        publishes(items[a]),
        publishes(items[b]),
        key_of(items[a]->message) == key_of(items[b]->message),
    ensures
        sent(items.take(a)).len() < sent(items.take(b)).len(),
        sent(items)[sent(items.take(a)).len() as int] == (
            key_of(items[a]->message),
            items[a]->payload->Ok_0,
        ),
        sent(items)[sent(items.take(b)).len() as int] == (
            key_of(items[b]->message),
            items[b]->payload->Ok_0,
        ),
{
    let len = items.len() as int;
    assert(items.take(len) =~= items);
    lemma_sent_step(items, a);
    lemma_sent_step(items, b);
    lemma_sent_prefix(items, a + 1, b);
    lemma_sent_prefix(items, a + 1, len);
    lemma_sent_prefix(items, b + 1, len);
    let pa = sent(items.take(a)).len() as int;
    let pb = sent(items.take(b)).len() as int;
    assert(sent(items.take(a + 1))[pa] == sent(items.take(len))[pa]);
    assert(sent(items.take(b + 1))[pb] == sent(items.take(len))[pb]);
}

/// A stream that ends with nothing in flight leaves the relay done: it closes, with
/// no error to report and no publish left to wait for.
pub proof fn lemma_graceful_end(s: RelayState)
    requires
        !s.closed,
        s.pending == 0,
    ensures
        done(after_pulled(s, Pulled::Ended)),
        !may_pull(after_pulled(s, Pulled::Ended)),
{
}

impl Relay {
    /// A running relay with nothing in flight, allowing at most `max_in_flight`
    /// concurrent publishes: `Some(1)` relays one message at a time, `None` and
    /// `Some(0)` set no bound.
    pub fn new(max_in_flight: Option<u64>) -> (r: Relay)
        ensures
            !r@.closed,
            r@.pending == 0,
            r@.limit == match max_in_flight {
                Some(n) => n as nat,
                None => 0,
            },
    {
        let limit: u64 = match max_in_flight {
            Some(n) => n,
            None => 0,
        };
        Relay { closed: false, pending: 0, limit }
    }

    /// Number of publishes started and not yet completed.
    pub fn pending(&self) -> (r: u64)
        ensures
            r as nat == self@.pending,
    {
        self.pending
    }

    /// Whether the stream has ended.
    pub fn is_closed(&self) -> (r: bool)
        ensures
            r == self@.closed,
    {
        self.closed
    }

    /// Whether another item may be pulled: the stream has not ended and the bound
    /// on publishes in flight leaves room.
    pub fn can_pull(&self) -> (r: bool)
        ensures
            r == may_pull(self@),
    {
        !self.closed && (self.limit == 0 || self.pending < self.limit)
    }

    /// Whether the relay is done: the stream ended and every publish completed.
    pub fn is_done(&self) -> (r: bool)
        ensures
            r == done(self@),
    {
        self.closed && self.pending == 0
    }

    /// Decides what to do with an item pulled from the stream. A message that
    /// encoded is to be published under its topic and key; a frame that failed, or a
    /// message that did not encode, is to be reported, and the relay goes on; the
    /// end of the stream closes it.
    pub fn on_pulled(&mut self, item: Pulled) -> (r: Action)
        requires
            !old(self)@.closed,
            old(self)@.pending < u64::MAX,
        ensures
            answers(item, r),
            final(self)@ == after_pulled(old(self)@, item),
    {
        match item {
            Pulled::Received { message, payload: Ok(text) } => {
                let topic = String::from_str(get_topic(&message));
                let key = String::from_str(get_key(&message));
                self.pending = self.pending + 1;
                Action::Publish { topic, key, payload: text }
            },
            Pulled::Received { message, payload: Err(cause) } => {
                Action::ReportSerializeFailure { message, cause }
            },
            Pulled::Broken { cause } => Action::ReportReceiveFailure { cause },
            Pulled::Ended => {
                self.closed = true;
                Action::Close
            },
        }
    }

    /// Records the completion of a publish: nothing more to do on success; on
    /// failure the failure is to be reported, and the relay goes on.
    pub fn on_published(&mut self, outcome: Result<(), PublishFailure>) -> (r: Action)
        requires
            old(self)@.pending > 0,
        ensures
            final(self)@ == (RelayState { pending: (old(self)@.pending - 1) as nat, ..old(self)@ }),
            match outcome {
                Ok(()) => r == Action::Nothing,
                Err(f) => r == Action::ReportPublishFailure(f),
            },
    {
        self.pending = self.pending - 1;
        match outcome {
            Ok(()) => Action::Nothing,
            Err(f) => Action::ReportPublishFailure(f),
        }
    }
}

} // verus!
