//! Publish/subscribe event bus with an append-only history.
//!
//! Subscribers are identified by the position of their subscription: the bus
//! stores one handler value per subscription and, on `emit`, logs the event and
//! reports which subscriptions are to be invoked, in registration order.
use vstd::prelude::*;

verus! {

/// Opaque structured payload carried by an event.
#[verifier::external_type_specification]
#[verifier::external_body]
pub struct ExJsonValue(serde_json::Value);

/// Relies on the derived `Clone` of `serde_json::Value`: the copy is the same document.
pub assume_specification[ <serde_json::Value as Clone>::clone ](v: &serde_json::Value) -> (r: serde_json::Value)
    ensures
        r == *v,
;

/// What `{:?}` prints for a string: the text between double quotes, escaped.
pub uninterp spec fn debug_rendering(s: Seq<char>) -> Seq<char>;

/// Relies on `<str as Debug>::fmt`: the quoted, escaped rendering of `s`.
#[verifier::external_body]
fn debug_text(s: &str) -> (r: String)
    ensures
        r@ == debug_rendering(s@),
{
    format!("{:?}", s)
}

/// Kinds of events; `Custom` is the open extension case.
#[derive(Debug, Clone)]
pub enum EventType {
    PersonCreated,
    PersonUpdated,
    ConversationCreated,
    MemoryExtracted,
    AIRequestCompleted,
    Custom(String),
}

/// The subscription key of an event type: the variant's name, and for
/// `Custom` the wrapped text in its debug rendering, as in `Custom("sync")`.
pub open spec fn key_text(t: EventType) -> Seq<char> {
    match t {
        EventType::PersonCreated => "PersonCreated"@,
        EventType::PersonUpdated => "PersonUpdated"@,
        EventType::ConversationCreated => "ConversationCreated"@,
        EventType::MemoryExtracted => "MemoryExtracted"@,
        EventType::AIRequestCompleted => "AIRequestCompleted"@,
        EventType::Custom(s) => "Custom("@ + debug_rendering(s@) + ")"@,
    }
}

/// The key of a custom event type, from the debug rendering of its text.
pub fn custom_key(rendered: &str) -> (r: String)
    ensures
        r@ == "Custom("@ + rendered@ + ")"@,
{
    String::from_str("Custom(").concat(rendered).concat(")")
}

impl EventType {
    /// Renders the key under which subscribers of this event type are registered.
    pub fn key(&self) -> (r: String)
        ensures
            r@ == key_text(*self),
    {
        match self {
            EventType::PersonCreated => String::from_str("PersonCreated"),
            EventType::PersonUpdated => String::from_str("PersonUpdated"),
            EventType::ConversationCreated => String::from_str("ConversationCreated"),
            EventType::MemoryExtracted => String::from_str("MemoryExtracted"),
            EventType::AIRequestCompleted => String::from_str("AIRequestCompleted"),
            EventType::Custom(s) => {
                let quoted = debug_text(s.as_str());
                custom_key(quoted.as_str())
            },
        }
    }

    /// An identical copy.
    pub fn duplicate(&self) -> (r: EventType)
        ensures
            r == *self,
    {
        match self {
            EventType::PersonCreated => EventType::PersonCreated,
            EventType::PersonUpdated => EventType::PersonUpdated,
            EventType::ConversationCreated => EventType::ConversationCreated,
            EventType::MemoryExtracted => EventType::MemoryExtracted,
            EventType::AIRequestCompleted => EventType::AIRequestCompleted,
            EventType::Custom(s) => EventType::Custom(s.clone()),
        }
    }
}

/// An immutable record of something that happened in a module.
#[derive(Debug, Clone)]
pub struct Event {
    pub event_type: EventType,
    pub source: String,
    pub data: serde_json::Value,
    pub timestamp: String,
}

impl Event {
    /// An identical copy, handed out as a snapshot of the log.
    pub fn duplicate(&self) -> (r: Event)
        ensures
            r == *self,
    {
        Event {
            event_type: self.event_type.duplicate(),
            source: self.source.clone(),
            data: self.data.clone(),
            timestamp: self.timestamp.clone(),
        }
    }
}

/// Handle of one subscription: its position in registration order.
#[derive(Debug, Clone, Copy, PartialEq, Eq, Structural)]
pub struct SubscriptionId(pub usize);

/// The subscriptions among the first `n` whose key is `key`, in registration order.
pub open spec fn recipients_upto(keys: Seq<Seq<char>>, key: Seq<char>, n: nat) -> Seq<SubscriptionId>
    decreases n,
{
    if n == 0 {
        Seq::empty()
    } else {
        let before = recipients_upto(keys, key, (n - 1) as nat);
        if keys[n - 1] == key {
            before.push(SubscriptionId((n - 1) as usize))
        } else {
            before
        }
    }
}

/// The subscriptions whose key is `key`, in registration order.
pub open spec fn recipients(keys: Seq<Seq<char>>, key: Seq<char>) -> Seq<SubscriptionId> {
    recipients_upto(keys, key, keys.len())
}

/// The `limit` most recent entries of `log`, newest first.
pub open spec fn newest_first(log: Seq<Event>, limit: nat) -> Seq<Event> {
    let n = if limit < log.len() { limit } else { log.len() };
    Seq::new(n, |i: int| log[log.len() - 1 - i])
}

/// Every recipient is an earlier subscription whose key matches.
pub proof fn recipients_are_matching_subscriptions(keys: Seq<Seq<char>>, key: Seq<char>, n: nat)
    requires
        n <= keys.len(),
        keys.len() <= usize::MAX,
    ensures
        forall|j: int|
            0 <= j < recipients_upto(keys, key, n).len() ==> {
                let id = #[trigger] recipients_upto(keys, key, n)[j].0;
                &&& id < n
                &&& keys[id as int] == key
            },
    decreases n,
{
    if n > 0 {
        let before = recipients_upto(keys, key, (n - 1) as nat);
        recipients_are_matching_subscriptions(keys, key, (n - 1) as nat);
        assert forall|j: int| 0 <= j < recipients_upto(keys, key, n).len() implies {
            let id = #[trigger] recipients_upto(keys, key, n)[j].0;
            &&& id < n
            &&& keys[id as int] == key
        } by {
            if j < before.len() {
                assert(recipients_upto(keys, key, n)[j] == before[j]);
            }
        }
    }
}

/// An event whose key no subscription carries is delivered to nobody.
pub proof fn no_subscriber_no_delivery(keys: Seq<Seq<char>>, key: Seq<char>)
    requires
        forall|i: int| 0 <= i < keys.len() ==> keys[i] != key,
    ensures
        recipients(keys, key).len() == 0,
{
    assert forall|n: nat| n <= keys.len() implies recipients_upto(keys, key, n).len() == 0 by {
        lemma_none_upto(keys, key, n);
    }
}

proof fn lemma_none_upto(keys: Seq<Seq<char>>, key: Seq<char>, n: nat)
    requires
        n <= keys.len(),
        forall|i: int| 0 <= i < keys.len() ==> keys[i] != key,
    ensures
        recipients_upto(keys, key, n).len() == 0,
    decreases n,
{
    if n > 0 {
        lemma_none_upto(keys, key, (n - 1) as nat);
    }
}

/// A subscription made after an event was emitted is not among that event's
/// recipients: its handle lies at or beyond the subscriptions present then.
pub proof fn late_subscriber_never_receives(keys_at_emit: Seq<Seq<char>>, key: Seq<char>, later: SubscriptionId)
    requires
        later.0 >= keys_at_emit.len(),
    ensures
        !recipients(keys_at_emit, key).contains(later),
{
    recipients_are_matching_subscriptions(keys_at_emit, key, keys_at_emit.len());
}

/// The bus: subscriptions in registration order, each a key and a handler, and
/// the log of every emitted event, oldest first.
pub struct EventBus<H> {
    subscriptions: Vec<(String, H)>,
    log: Vec<Event>,
}

impl<H> EventBus<H> {
    /// The keys of the subscriptions, in registration order.
    pub closed spec fn keys(&self) -> Seq<Seq<char>> {
        self.subscriptions@.map_values(|s: (String, H)| s.0@)
    }

    /// The handlers of the subscriptions, in registration order.
    pub closed spec fn handlers(&self) -> Seq<H> {
        self.subscriptions@.map_values(|s: (String, H)| s.1)
    }

    /// Every event emitted so far, oldest first.
    pub closed spec fn log(&self) -> Seq<Event> {
        self.log@
    }

    /// An empty bus: no subscriptions, empty log.
    pub fn new() -> (r: Self)
        ensures
            r.keys() == Seq::<Seq<char>>::empty(),
            r.handlers() == Seq::<H>::empty(),
            r.log() == Seq::<Event>::empty(),
    {
        let r = EventBus { subscriptions: Vec::new(), log: Vec::new() };
        assert(r.keys() =~= Seq::<Seq<char>>::empty());
        assert(r.handlers() =~= Seq::<H>::empty());
        r
    }

    /// Registers `handler` under the exact key `event_key`; duplicates are kept
    /// and all fire. Returns the handle of the new subscription.
    pub fn subscribe(&mut self, event_key: &str, handler: H) -> (r: SubscriptionId)
        ensures
            r.0 == old(self).keys().len(),
            final(self).keys() == old(self).keys().push(event_key@),
            final(self).handlers() == old(self).handlers().push(handler),
            final(self).log() == old(self).log(),
    {
        let id = SubscriptionId(self.subscriptions.len());
        self.subscriptions.push((String::from_str(event_key), handler));
        assert(self.keys() =~= old(self).keys().push(event_key@));
        assert(self.handlers() =~= old(self).handlers().push(handler));
        id
    }

    /// Appends `event` to the log, then returns the subscriptions whose key is
    /// the event's key, in registration order: the handlers to invoke.
    pub fn emit(&mut self, event: Event) -> (r: Vec<SubscriptionId>)
        ensures
            final(self).log() == old(self).log().push(event),
            final(self).keys() == old(self).keys(),
            final(self).handlers() == old(self).handlers(),
            r@ == recipients(old(self).keys(), key_text(event.event_type)),
            (forall|i: int| 0 <= i < old(self).keys().len() ==> old(self).keys()[i] != key_text(event.event_type))
                ==> r@.len() == 0,
    {
        let key = event.event_type.key();
        self.log.push(event);
        let mut r: Vec<SubscriptionId> = Vec::new();
        let n = self.subscriptions.len();
        let mut i: usize = 0;
        while i < n
            invariant
                n == self.subscriptions@.len(),
                self.subscriptions@ == old(self).subscriptions@,
                i <= n,
                r@ == recipients_upto(self.keys(), key@, i as nat),
            decreases n - i,
        {
            if self.subscriptions[i].0 == key {
                r.push(SubscriptionId(i));
            }
            i = i + 1;
        }
        proof {
            if forall|i: int| 0 <= i < old(self).keys().len() ==> old(self).keys()[i] != key_text(event.event_type) {
                no_subscriber_no_delivery(old(self).keys(), key@);
            }
        }
        r
    }

    /// The handler of subscription `id`.
    pub fn handler(&self, id: SubscriptionId) -> (r: &H)
        requires
            id.0 < self.handlers().len(),
        ensures
            *r == self.handlers()[id.0 as int],
    {
        &self.subscriptions[id.0].1
    }

    /// The `limit` most recent events, newest first; all of them if fewer exist.
    pub fn get_log(&self, limit: usize) -> (r: Vec<Event>)
        ensures
            r@ == newest_first(self.log(), limit as nat),
    {
        let len = self.log.len();
        let n = if limit < len { limit } else { len };
        let mut r: Vec<Event> = Vec::new();
        let mut i: usize = 0;
        while i < n
            invariant
                len == self.log@.len(),
                n <= len,
                n == (if limit < len { limit } else { len }),
                i <= n,
                r@.len() == i,
                forall|j: int| 0 <= j < i ==> r@[j] == self.log@[len - 1 - j],
            decreases n - i,
        {
            r.push(self.log[len - 1 - i].duplicate());
            i = i + 1;
        }
        assert(r@ =~= newest_first(self.log(), limit as nat));
        r
    }
}

impl<H> Default for EventBus<H> {
    fn default() -> (r: Self)
        ensures
            r.keys() == Seq::<Seq<char>>::empty(),
            r.handlers() == Seq::<H>::empty(),
            r.log() == Seq::<Event>::empty(),
    {
        EventBus::new()
    }
}

} // verus!
