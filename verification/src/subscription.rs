//! Channel subscriptions of a client: the state of each subscription, its
//! queue of publications, and the table that holds them under stable keys.
//!
//! The table is a `slotmap` slot map; a key is handed out in its integer
//! form (`KeyData::as_ffi`).  A channel has at most one subscription.

use slotmap::{DefaultKey, Key, KeyData, SlotMap};
use vstd::prelude::*;
use crate::client::types::{MessageStore, MessageStoreItem, live_part, expired_part, batch_from};
use crate::client_handler::ReplyError;
use crate::errors::RemoveSubscriptionError;
use crate::protocol::{Command, PublishRequest};

verus! {

/// Represents the current state of a subscription.
#[derive(Debug, Clone, Copy, PartialEq, Eq, Structural)]
pub enum State {
    /// Subscription is not active and not attempting to connect
    Unsubscribed,
    /// Subscription is in the process of being established
    Subscribing,
    /// Subscription is active and receiving publications
    Subscribed,
}

/// A subscription: its channel, its state, and, while it is not
/// unsubscribed, the queue of publications waiting to be sent on it.
#[derive(Debug)]
pub struct SubscriptionInner {
    pub channel: String,
    pub state: State,
    pub pub_queue: Option<MessageStore>,
    pub read_timeout: u64,
}

impl SubscriptionInner {
    /// A new, unsubscribed subscription to `channel`.
    pub fn new(channel: &str, read_timeout: u64) -> (s: Self)
        ensures
            s.channel@ == channel@,
            s.state == State::Unsubscribed,
            s.pub_queue is None,
            s.read_timeout == read_timeout,
    {
        SubscriptionInner {
            channel: channel.to_owned(),
            state: State::Unsubscribed,
            pub_queue: None,
            read_timeout,
        }
    }

    /// Starts subscribing: opens the publication queue if there is none.
    pub fn move_to_subscribing(&mut self)
        ensures
            final(self).state == State::Subscribing,
            final(self).channel == old(self).channel,
            final(self).read_timeout == old(self).read_timeout,
            old(self).pub_queue is Some ==> final(self).pub_queue == old(self).pub_queue,
            old(self).pub_queue is None ==> (final(self).pub_queue matches Some(q) && q.requests()
                =~= Seq::empty() && q.timeout() == old(self).read_timeout),
    {
        if self.pub_queue.is_none() {
            self.pub_queue = Some(MessageStore::new(self.read_timeout));
        }
        self.state = State::Subscribing;
    }

    /// The server accepted the subscription.
    pub fn move_to_subscribed(&mut self)
        ensures
            final(self).state == State::Subscribed,
            final(self).channel == old(self).channel,
            final(self).read_timeout == old(self).read_timeout,
            final(self).pub_queue == old(self).pub_queue,
    {
        self.state = State::Subscribed;
    }

    /// Unsubscribes: the publication queue is dropped.
    pub fn move_to_unsubscribed(&mut self)
        ensures
            final(self).state == State::Unsubscribed,
            final(self).channel == old(self).channel,
            final(self).read_timeout == old(self).read_timeout,
            final(self).pub_queue is None,
    {
        self.pub_queue = None;
        self.state = State::Unsubscribed;
    }
}

/// Whether `k` has the form of a key handed out by the slot map: the
/// version, in its upper half, is odd.
pub open spec fn is_slot_key(k: u64) -> bool {
    (k / 0x1_0000_0000) % 2 == 1
}

/// The slot map that holds the subscriptions.
#[verifier::external_body]
pub struct Slots {
    map: SlotMap<DefaultKey, SubscriptionInner>,
}

/// The subscriptions a slot map holds, by the integer form of their keys.
pub uninterp spec fn slot_entries(m: Slots) -> Map<u64, SubscriptionInner>;

/// `SlotMap::new`: an empty map.
#[verifier::external_body]
fn slots_new() -> (m: Slots)
    ensures
        slot_entries(m) =~= Map::empty(),
{
    Slots { map: SlotMap::new() }
}

/// `SlotMap::len`: the number of entries.
#[verifier::external_body]
fn slots_len(m: &Slots) -> (n: usize)
    ensures
        n == slot_entries(*m).len(),
{
    m.map.len()
}

/// `SlotMap::insert`: stores `v` under a key that no entry has; the key's
/// version is odd.  The map panics when it holds `u32::MAX - 1` entries,
/// which `requires` leaves out.
#[verifier::external_body]
fn slots_insert(m: &mut Slots, v: SubscriptionInner) -> (k: u64)
    requires
        slot_entries(*old(m)).len() + 2 < u32::MAX,
    ensures
        is_slot_key(k),
        !slot_entries(*old(m)).contains_key(k),
        slot_entries(*final(m)) == slot_entries(*old(m)).insert(k, v),
{
    m.map.insert(v).data().as_ffi()
}

/// `SlotMap::get`: the entry under key `k`.
#[verifier::external_body]
fn slots_get(m: &Slots, k: u64) -> (r: Option<&SubscriptionInner>)
    requires
        is_slot_key(k),
    ensures
        !slot_entries(*m).contains_key(k) ==> r is None,
        slot_entries(*m).contains_key(k) ==> (r is Some && *r.unwrap() == slot_entries(*m)[k]),
{
    m.map.get(DefaultKey::from(KeyData::from_ffi(k)))
}

/// `SlotMap::get_mut`: the entry under key `k`, to be changed in place.
#[verifier::external_body]
fn slots_get_mut(m: &mut Slots, k: u64) -> (r: Option<&mut SubscriptionInner>)
    requires
        is_slot_key(k),
    ensures
        !slot_entries(*old(m)).contains_key(k) ==> (r is None && slot_entries(*final(m))
            == slot_entries(*old(m))),
        slot_entries(*old(m)).contains_key(k) ==> (r is Some && *r.unwrap() == slot_entries(
            *old(m),
        )[k] && slot_entries(*final(m)) == slot_entries(*old(m)).insert(k, *final(r.unwrap()))),
{
    m.map.get_mut(DefaultKey::from(KeyData::from_ffi(k)))
}

/// `SlotMap::remove`: takes the entry under key `k` out of the map.
#[verifier::external_body]
fn slots_remove(m: &mut Slots, k: u64) -> (r: Option<SubscriptionInner>)
    requires
        is_slot_key(k),
    ensures
        !slot_entries(*old(m)).contains_key(k) ==> (r is None && slot_entries(*final(m))
            == slot_entries(*old(m))),
        slot_entries(*old(m)).contains_key(k) ==> (r == Some(slot_entries(*old(m))[k])
            && slot_entries(*final(m)) == slot_entries(*old(m)).remove(k)),
{
    m.map.remove(DefaultKey::from(KeyData::from_ffi(k)))
}

/// `SlotMap::keys`: every key of the map, each once.
#[verifier::external_body]
fn slots_keys(m: &Slots) -> (ks: Vec<u64>)
    ensures
        ks@.no_duplicates(),
        forall|i: int| 0 <= i < ks.len() ==> slot_entries(*m).contains_key(#[trigger] ks@[i]),
        forall|k: u64| slot_entries(*m).contains_key(k) ==> ks@.contains(k),
{
    m.map.keys().map(|k| k.data().as_ffi()).collect()
}

} // verus!

verus! {

/// The key of a subscription in the table of its client.
#[derive(Debug, Clone, Copy, PartialEq, Eq, Hash)]
pub struct SubscriptionId(u64);

impl SubscriptionId {
    #[verifier::type_invariant]
    spec fn made_by_table(self) -> bool {
        is_slot_key(self.0)
    }

    /// The integer form of the key.
    pub closed spec fn key(self) -> u64 {
        self.0
    }

    /// The integer form of the key.
    pub fn as_u64(&self) -> (k: u64)
        ensures
            k == self.key(),
            is_slot_key(k),
    {
        proof {
            use_type_invariant(self);
        }
        self.0
    }
}

} // verus!

verus! {

/// The queued form of a publication of `data` on `channel`.
pub open spec fn publish_item(channel: String, data: Vec<u8>, ticket: u64, deadline: u64) -> MessageStoreItem {
    MessageStoreItem { command: Command::Publish(PublishRequest { channel, data }), ticket, deadline }
}

/// An unsubscribed subscription has no queue; a queue expires requests
/// after the subscription's read timeout.
pub open spec fn record_ok(s: SubscriptionInner) -> bool {
    &&& (s.state == State::Unsubscribed ==> s.pub_queue is None)
    &&& (s.pub_queue matches Some(q) ==> q.timeout() == s.read_timeout)
}

/// No two subscriptions share a channel.
pub open spec fn channels_unique(e: Map<u64, SubscriptionInner>) -> bool {
    forall|a: u64, b: u64|
        #![trigger e[a], e[b]]
        e.contains_key(a) && e.contains_key(b) && e[a].channel@ == e[b].channel@ ==> a == b
}

/// The key of the subscription to `channel`, if there is one.
pub open spec fn key_of(e: Map<u64, SubscriptionInner>, channel: Seq<char>) -> Option<u64> {
    if exists|k: u64| #[trigger] e.contains_key(k) && e[k].channel@ == channel {
        Some(choose|k: u64| #[trigger] e.contains_key(k) && e[k].channel@ == channel)
    } else {
        None
    }
}

/// The key of an optional subscription.
pub open spec fn key_opt(r: Option<SubscriptionId>) -> Option<u64> {
    match r {
        Some(id) => Some(id.key()),
        None => None,
    }
}

/// `n` holds what `o` holds, but for the subscription under `k`, whose
/// channel and read timeout are kept.
pub open spec fn same_subscription(o: Map<u64, SubscriptionInner>, n: Map<u64, SubscriptionInner>, k: u64) -> bool {
    &&& n == o.insert(k, n[k])
    &&& n[k].channel == o[k].channel
    &&& n[k].read_timeout == o[k].read_timeout
}

/// Asking for the subscription to `channel` gives the one there is (and
/// changes nothing), or adds a new unsubscribed one under a fresh key.
pub open spec fn new_subscription_post(
    o: Map<u64, SubscriptionInner>,
    n: Map<u64, SubscriptionInner>,
    channel: Seq<char>,
    read_timeout: u64,
    k: u64,
) -> bool {
    &&& key_of(n, channel) == Some(k)
    &&& match key_of(o, channel) {
        Some(k0) => k0 == k && n == o,
        None => {
            &&& !o.contains_key(k)
            &&& n == o.insert(k, n[k])
            &&& n[k].channel@ == channel
            &&& n[k].state == State::Unsubscribed
            &&& n[k].pub_queue is None
            &&& n[k].read_timeout == read_timeout
        },
    }
}

/// Removing a missing subscription succeeds and changes nothing; one that
/// is not unsubscribed stays and is refused; an unsubscribed one leaves.
pub open spec fn remove_post(
    o: Map<u64, SubscriptionInner>,
    n: Map<u64, SubscriptionInner>,
    k: u64,
    r: Result<(), RemoveSubscriptionError>,
) -> bool {
    if !o.contains_key(k) {
        r is Ok && n == o
    } else if o[k].state != State::Unsubscribed {
        r == Err::<(), RemoveSubscriptionError>(RemoveSubscriptionError::NotUnsubscribed) && n == o
    } else {
        r is Ok && n == o.remove(k)
    }
}

/// Subscribing starts exactly for an unsubscribed subscription, which
/// becomes subscribing with an empty queue.
pub open spec fn subscribe_post(o: Map<u64, SubscriptionInner>, n: Map<u64, SubscriptionInner>, k: u64, started: bool) -> bool {
    &&& started == (o.contains_key(k) && o[k].state == State::Unsubscribed)
    &&& !started ==> n == o
    &&& started ==> {
        &&& same_subscription(o, n, k)
        &&& n[k].state == State::Subscribing
        &&& n[k].pub_queue matches Some(q) && q.requests() =~= Seq::empty()
    }
}

/// Unsubscribing stops exactly a subscription that is not unsubscribed,
/// which becomes unsubscribed without a queue.
pub open spec fn unsubscribe_post(o: Map<u64, SubscriptionInner>, n: Map<u64, SubscriptionInner>, k: u64, stopped: bool) -> bool {
    &&& stopped == (o.contains_key(k) && o[k].state != State::Unsubscribed)
    &&& !stopped ==> n == o
    &&& stopped ==> {
        &&& same_subscription(o, n, k)
        &&& n[k].state == State::Unsubscribed
        &&& n[k].pub_queue is None
    }
}

/// An accepted subscribe request makes a subscription that is still there
/// subscribed, whatever its state; otherwise nothing changes.
pub open spec fn subscribe_finished_post(
    o: Map<u64, SubscriptionInner>,
    n: Map<u64, SubscriptionInner>,
    k: u64,
    accepted: bool,
    found: bool,
) -> bool {
    &&& found == o.contains_key(k)
    &&& !(found && accepted) ==> n == o
    &&& (found && accepted) ==> {
        &&& same_subscription(o, n, k)
        &&& n[k].state == State::Subscribed
        &&& n[k].pub_queue == o[k].pub_queue
    }
}

/// A publication on a subscription with an open queue is queued, made at
/// `now`, and the expired requests are dropped; without such a
/// subscription it fails as `Closed` and nothing changes.
pub open spec fn publish_post(
    o: Map<u64, SubscriptionInner>,
    n: Map<u64, SubscriptionInner>,
    k: u64,
    data: Vec<u8>,
    ticket: u64,
    now: u64,
    r: Result<Vec<u64>, ReplyError>,
) -> bool {
    if o.contains_key(k) && o[k].pub_queue is Some {
        let q = o[k].pub_queue.unwrap().requests().push(
            publish_item(o[k].channel, data, ticket, (now + o[k].read_timeout) as u64),
        );
        &&& r is Ok
        &&& same_subscription(o, n, k)
        &&& n[k].state == o[k].state
        &&& n[k].pub_queue is Some
        &&& n[k].pub_queue.unwrap().requests() == live_part(q, now)
        &&& n[k].pub_queue.unwrap().timeout() == o[k].pub_queue.unwrap().timeout()
        &&& r.unwrap()@ == expired_part(q, now)
    } else {
        r == Err::<Vec<u64>, ReplyError>(ReplyError::Closed) && n == o
    }
}

/// Taking a batch from the queue of a subscription with an open queue;
/// `None`, and no change, without one.
pub open spec fn batch_post(
    o: Map<u64, SubscriptionInner>,
    n: Map<u64, SubscriptionInner>,
    k: u64,
    now: u64,
    max: nat,
    r: Option<(Vec<MessageStoreItem>, Vec<u64>)>,
) -> bool {
    if o.contains_key(k) && o[k].pub_queue is Some {
        let b = batch_from(o[k].pub_queue.unwrap().requests(), now, max);
        &&& r is Some
        &&& same_subscription(o, n, k)
        &&& n[k].state == o[k].state
        &&& n[k].pub_queue is Some
        &&& n[k].pub_queue.unwrap().requests() == b.2
        &&& n[k].pub_queue.unwrap().timeout() == o[k].pub_queue.unwrap().timeout()
        &&& r.unwrap().0@ == b.0
        &&& r.unwrap().1@ == b.1
    } else {
        r is None && n == o
    }
}

/// The subscription that receives publications pushed on `channel`: the
/// one to that channel, while it is subscribed.
pub open spec fn publication_target_of(e: Map<u64, SubscriptionInner>, channel: Seq<char>) -> Option<u64> {
    match key_of(e, channel) {
        Some(k) => if e[k].state == State::Subscribed {
            Some(k)
        } else {
            None
        },
        None => None,
    }
}

/// The subscriptions of a client, by key.
pub struct Subscriptions {
    slots: Slots,
}

impl Subscriptions {
    /// The subscriptions, by the integer form of their keys.
    pub closed spec fn entries(&self) -> Map<u64, SubscriptionInner> {
        slot_entries(self.slots)
    }

    /// The table is finite, its keys are keys of the slot map, no two
    /// subscriptions share a channel, and an unsubscribed one has no queue.
    pub open spec fn wf(&self) -> bool {
        &&& self.entries().dom().finite()
        &&& forall|k: u64| #[trigger] self.entries().contains_key(k) ==> is_slot_key(k)
        &&& channels_unique(self.entries())
        &&& forall|k: u64| #[trigger] self.entries().contains_key(k) ==> record_ok(self.entries()[k])
    }

    /// An empty table.
    pub fn new() -> (s: Self)
        ensures
            s.wf(),
            s.entries() =~= Map::empty(),
    {
        Subscriptions { slots: slots_new() }
    }

    /// The number of subscriptions.
    pub fn len(&self) -> (n: usize)
        ensures
            n == self.entries().len(),
    {
        slots_len(&self.slots)
    }

    /// The subscription to `channel`, if there is one.
    pub fn get_subscription(&self, channel: &str) -> (r: Option<SubscriptionId>)
        requires
            self.wf(),
        ensures
            key_opt(r) == key_of(self.entries(), channel@),
    {
        let keys = slots_keys(&self.slots);
        let target = channel.to_owned();
        let mut i: usize = 0;
        while i < keys.len()
            invariant
                self.wf(),
                target@ == channel@,
                0 <= i <= keys.len(),
                forall|j: int| 0 <= j < keys.len() ==> self.entries().contains_key(#[trigger] keys@[j]),
                forall|k: u64| self.entries().contains_key(k) ==> keys@.contains(k),
                forall|j: int|
                    0 <= j < i ==> self.entries()[#[trigger] keys@[j]].channel@ != channel@,
            decreases keys.len() - i,
        {
            let k = keys[i];
            assert(self.entries().contains_key(keys@[i as int]));
            match slots_get(&self.slots, k) {
                Some(sub) => {
                    if sub.channel == target {
                        proof {
                            let c = choose|x: u64| #[trigger]
                                self.entries().contains_key(x) && self.entries()[x].channel@
                                    == channel@;
                            assert(self.entries()[c].channel@ == self.entries()[k].channel@);
                        }
                        return Some(SubscriptionId(k));
                    }
                },
                None => {},
            }
            i = i + 1;
        }
        proof {
            assert forall|k: u64| #[trigger]
                self.entries().contains_key(k) implies self.entries()[k].channel@ != channel@ by {
                assert(keys@.contains(k));
                let j = choose|j: int| 0 <= j < keys.len() && keys@[j] == k;
                assert(self.entries()[keys@[j]].channel@ != channel@);
            }
        }
        None
    }

    /// The subscription to `channel`: the one there is, or a new,
    /// unsubscribed one whose requests expire after `read_timeout`.
    pub fn new_subscription(&mut self, channel: &str, read_timeout: u64) -> (id: SubscriptionId)
        requires
            old(self).wf(),
            key_of(old(self).entries(), channel@) is None ==> old(self).entries().len() + 2
                < u32::MAX,
        ensures
            final(self).wf(),
            new_subscription_post(old(self).entries(), final(self).entries(), channel@, read_timeout, id.key()),
    {
        match self.get_subscription(channel) {
            Some(id) => id,
            None => {
                let ghost before = self.entries();
                let sub = SubscriptionInner::new(channel, read_timeout);
                let k = slots_insert(&mut self.slots, sub);
                proof {
                    let e = self.entries();
                    assert(e.contains_key(k) && e[k].channel@ == channel@);
                    assert forall|a: u64, b: u64|
                        e.contains_key(a) && e.contains_key(b) && e[a].channel@ == e[b].channel@
                        implies a == b by {
                        if a != k && b != k {
                            assert(before.contains_key(a) && before.contains_key(b));
                        } else if a == k && b != k {
                            assert(before.contains_key(b) && before[b].channel@ == channel@);
                        } else if b == k && a != k {
                            assert(before.contains_key(a) && before[a].channel@ == channel@);
                        }
                    }
                    let c = choose|x: u64| #[trigger] e.contains_key(x) && e[x].channel@ == channel@;
                    assert(e[c].channel@ == e[k].channel@);
                }
                SubscriptionId(k)
            },
        }
    }

    /// Removes a subscription, which must be unsubscribed; one that is no
    /// longer in the table is taken as removed.
    pub fn remove_subscription(&mut self, id: SubscriptionId) -> (r: Result<(), RemoveSubscriptionError>)
        requires
            old(self).wf(),
        ensures
            final(self).wf(),
            remove_post(old(self).entries(), final(self).entries(), id.key(), r),
    {
        proof {
            use_type_invariant(&id);
        }
        let k = id.0;
        let unsubscribed = match slots_get(&self.slots, k) {
            None => {
                return Ok(());
            },
            Some(sub) => sub.state == State::Unsubscribed,
        };
        if !unsubscribed {
            return Err(RemoveSubscriptionError::NotUnsubscribed);
        }
        let _ = slots_remove(&mut self.slots, k);
        Ok(())
    }

    /// The state of a subscription; one that is no longer in the table is
    /// unsubscribed.
    pub fn state(&self, id: SubscriptionId) -> (st: State)
        ensures
            st == (if self.entries().contains_key(id.key()) {
                self.entries()[id.key()].state
            } else {
                State::Unsubscribed
            }),
    {
        proof {
            use_type_invariant(&id);
        }
        match slots_get(&self.slots, id.0) {
            Some(sub) => sub.state,
            None => State::Unsubscribed,
        }
    }

    /// Starts subscribing an unsubscribed subscription; returns whether it
    /// did.  A subscription that is missing or not unsubscribed is left as
    /// it is (and `subscribe` fails at once).
    pub fn subscribe(&mut self, id: SubscriptionId) -> (started: bool)
        requires
            old(self).wf(),
        ensures
            final(self).wf(),
            subscribe_post(old(self).entries(), final(self).entries(), id.key(), started),
    {
        proof {
            use_type_invariant(&id);
        }
        let ghost before = self.entries();
        let k = id.0;
        let started = match slots_get_mut(&mut self.slots, k) {
            None => false,
            Some(sub) => {
                if sub.state != State::Unsubscribed {
                    false
                } else {
                    sub.move_to_subscribing();
                    true
                }
            },
        };
        proof {
            if before.contains_key(k) {
                lemma_same_channel_keeps_wf(before, k, self.entries()[k]);
            }
            if !started {
                assert(self.entries() =~= before);
            }
        }
        started
    }

    /// Unsubscribes a subscription that is not unsubscribed, dropping its
    /// queue; returns whether it did.  A subscription that is missing or
    /// already unsubscribed is left as it is (and `unsubscribe` is done at
    /// once).
    pub fn unsubscribe(&mut self, id: SubscriptionId) -> (stopped: bool)
        requires
            old(self).wf(),
        ensures
            final(self).wf(),
            unsubscribe_post(old(self).entries(), final(self).entries(), id.key(), stopped),
    {
        proof {
            use_type_invariant(&id);
        }
        let ghost before = self.entries();
        let k = id.0;
        let stopped = match slots_get_mut(&mut self.slots, k) {
            None => false,
            Some(sub) => {
                if sub.state == State::Unsubscribed {
                    false
                } else {
                    sub.move_to_unsubscribed();
                    true
                }
            },
        };
        proof {
            if before.contains_key(k) {
                lemma_same_channel_keeps_wf(before, k, self.entries()[k]);
            }
            if !stopped {
                assert(self.entries() =~= before);
            }
        }
        stopped
    }

    /// The server answered the subscribe request of a subscription: if the
    /// subscription is still there and `accepted`, it becomes subscribed
    /// (whatever its state was).  Returns whether it is still there, in
    /// which case its `subscribe` waiters learn the outcome.
    pub fn subscribe_finished(&mut self, id: SubscriptionId, accepted: bool) -> (found: bool)
        requires
            old(self).wf(),
        ensures
            final(self).wf(),
            subscribe_finished_post(old(self).entries(), final(self).entries(), id.key(), accepted, found),
    {
        proof {
            use_type_invariant(&id);
        }
        let ghost before = self.entries();
        let k = id.0;
        let found = match slots_get_mut(&mut self.slots, k) {
            None => false,
            Some(sub) => {
                if accepted {
                    sub.move_to_subscribed();
                }
                true
            },
        };
        proof {
            if before.contains_key(k) {
                lemma_same_channel_keeps_wf(before, k, self.entries()[k]);
            }
            if !(found && accepted) {
                assert(self.entries() =~= before);
            }
        }
        found
    }

    /// The channel of a subscription in the table.
    pub fn channel_of(&self, id: SubscriptionId) -> (c: String)
        requires
            self.entries().contains_key(id.key()),
        ensures
            c == self.entries()[id.key()].channel,
    {
        proof {
            use_type_invariant(&id);
        }
        match slots_get(&self.slots, id.0) {
            Some(sub) => sub.channel.clone(),
            None => String::new(),
        }
    }

    /// Whether the subscription is still in the table.
    pub fn contains(&self, id: SubscriptionId) -> (b: bool)
        ensures
            b == self.entries().contains_key(id.key()),
    {
        proof {
            use_type_invariant(&id);
        }
        match slots_get(&self.slots, id.0) {
            Some(_) => true,
            None => false,
        }
    }

    /// Queues a publication of `data` on the channel of a subscription whose
    /// queue is open, made at `now`; returns the tickets of the requests
    /// that expired meanwhile.  Without such a subscription the publication
    /// fails at once as `Closed`.
    pub fn publish(&mut self, id: SubscriptionId, data: Vec<u8>, ticket: u64, now: u64) -> (r: Result<
        Vec<u64>,
        ReplyError,
    >)
        requires
            old(self).wf(),
            old(self).entries().contains_key(id.key()) ==> now + old(self).entries()[id.key()].read_timeout
                <= u64::MAX,
        ensures
            final(self).wf(),
            publish_post(old(self).entries(), final(self).entries(), id.key(), data, ticket, now, r),
    {
        proof {
            use_type_invariant(&id);
        }
        let ghost before = self.entries();
        let k = id.0;
        let r = match slots_get_mut(&mut self.slots, k) {
            None => Err(ReplyError::Closed),
            Some(sub) => {
                let channel = sub.channel.clone();
                match sub.pub_queue.take() {
                    None => Err(ReplyError::Closed),
                    Some(mut q) => {
                        let expired = q.send(
                            Command::Publish(PublishRequest { channel, data }),
                            ticket,
                            now,
                        );
                        sub.pub_queue = Some(q);
                        Ok(expired)
                    },
                }
            },
        };
        proof {
            if before.contains_key(k) {
                lemma_same_channel_keeps_wf(before, k, self.entries()[k]);
            }
            if r is Err {
                assert(self.entries() =~= before);
            }
        }
        r
    }

    /// Takes up to `max` live publications from the queue of a subscription,
    /// as its writer does; `None` when the subscription or its queue is
    /// gone, which ends the writer.
    pub fn take_publish_batch(&mut self, id: SubscriptionId, now: u64, max: usize) -> (r: Option<
        (Vec<MessageStoreItem>, Vec<u64>),
    >)
        requires
            old(self).wf(),
        ensures
            final(self).wf(),
            batch_post(old(self).entries(), final(self).entries(), id.key(), now, max as nat, r),
    {
        proof {
            use_type_invariant(&id);
        }
        let ghost before = self.entries();
        let k = id.0;
        let r = match slots_get_mut(&mut self.slots, k) {
            None => None,
            Some(sub) => {
                match sub.pub_queue.take() {
                    None => None,
                    Some(mut q) => {
                        let batch = q.take_batch(now, max);
                        sub.pub_queue = Some(q);
                        Some(batch)
                    },
                }
            },
        };
        proof {
            if before.contains_key(k) {
                lemma_same_channel_keeps_wf(before, k, self.entries()[k]);
            }
            if r is None {
                assert(self.entries() =~= before);
            }
        }
        r
    }

    /// The subscriptions that are not unsubscribed, each once, in the order
    /// of the table: those to subscribe again on a new connection.
    pub fn active_ids(&self) -> (ids: Vec<SubscriptionId>)
        requires
            self.wf(),
        ensures
            forall|i: int|
                0 <= i < ids.len() ==> self.entries().contains_key(#[trigger] ids@[i].key())
                    && self.entries()[ids@[i].key()].state != State::Unsubscribed,
            forall|k: u64|
                self.entries().contains_key(k) && self.entries()[k].state != State::Unsubscribed
                    ==> exists|i: int| 0 <= i < ids.len() && #[trigger] ids@[i].key() == k,
            forall|i: int, j: int|
                0 <= i < j < ids.len() ==> #[trigger] ids@[i].key() != #[trigger] ids@[j].key(),
    {
        let keys = slots_keys(&self.slots);
        let mut ids: Vec<SubscriptionId> = Vec::new();
        let ghost mut pos: Seq<int> = Seq::empty();
        let mut i: usize = 0;
        while i < keys.len()
            invariant
                self.wf(),
                0 <= i <= keys.len(),
                keys@.no_duplicates(),
                forall|j: int| 0 <= j < keys.len() ==> self.entries().contains_key(#[trigger] keys@[j]),
                forall|k: u64| self.entries().contains_key(k) ==> keys@.contains(k),
                pos.len() == ids.len(),
                forall|a: int|
                    0 <= a < ids.len() ==> 0 <= #[trigger] pos[a] < i && keys@[pos[a]] == ids@[a].key(),
                forall|a: int, b: int| 0 <= a < b < ids.len() ==> #[trigger] pos[a] < #[trigger] pos[b],
                forall|a: int|
                    0 <= a < ids.len() ==> self.entries()[#[trigger] ids@[a].key()].state
                        != State::Unsubscribed,
                forall|j: int|
                    0 <= j < i && self.entries()[#[trigger] keys@[j]].state != State::Unsubscribed
                        ==> pos.contains(j),
            decreases keys.len() - i,
        {
            let k = keys[i];
            assert(self.entries().contains_key(keys@[i as int]));
            let active = match slots_get(&self.slots, k) {
                Some(sub) => sub.state != State::Unsubscribed,
                None => false,
            };
            if active {
                ids.push(SubscriptionId(k));
                proof {
                    let old_pos = pos;
                    pos = pos.push(i as int);
                    assert forall|j: int|
                        0 <= j < i + 1 && self.entries()[#[trigger] keys@[j]].state != State::Unsubscribed
                        implies pos.contains(j) by {
                        if j < i {
                            assert(old_pos.contains(j));
                            let a = choose|a: int| 0 <= a < old_pos.len() && old_pos[a] == j;
                            assert(pos[a] == j);
                        } else {
                            assert(pos[pos.len() - 1] == j);
                        }
                    }
                }
            }
            i = i + 1;
        }
        proof {
            assert forall|a: int| 0 <= a < ids.len() implies self.entries().contains_key(
                #[trigger] ids@[a].key(),
            ) by {
                assert(self.entries().contains_key(keys@[pos[a]]));
            }
            assert forall|a: int, b: int|
                0 <= a < b < ids.len() implies #[trigger] ids@[a].key() != #[trigger] ids@[b].key() by {
                assert(pos[a] < pos[b]);
                assert(keys@[pos[a]] != keys@[pos[b]]);
            }
            assert forall|k: u64|
                self.entries().contains_key(k) && self.entries()[k].state != State::Unsubscribed
                implies exists|a: int| 0 <= a < ids.len() && #[trigger] ids@[a].key() == k by {
                assert(keys@.contains(k));
                let j = choose|j: int| 0 <= j < keys.len() && keys@[j] == k;
                assert(self.entries()[keys@[j]].state != State::Unsubscribed);
                assert(pos.contains(j));
                let a = choose|a: int| 0 <= a < pos.len() && pos[a] == j;
                assert(ids@[a].key() == k);
            }
        }
        ids
    }

    /// The subscription that receives a publication pushed on `channel`:
    /// the subscription to that channel, if it is subscribed.
    pub fn publication_target(&self, channel: &str) -> (r: Option<SubscriptionId>)
        requires
            self.wf(),
        ensures
            key_opt(r) == publication_target_of(self.entries(), channel@),
    {
        match self.get_subscription(channel) {
            None => None,
            Some(id) => {
                proof {
                    use_type_invariant(&id);
                }
                if self.state(id) == State::Subscribed {
                    Some(id)
                } else {
                    None
                }
            },
        }
    }
}

/// Changing a subscription in place, keeping its channel, keeps the table
/// well formed.
proof fn lemma_same_channel_keeps_wf(e: Map<u64, SubscriptionInner>, k: u64, v: SubscriptionInner)
    requires
        e.contains_key(k),
        channels_unique(e),
        v.channel@ == e[k].channel@,
    ensures
        channels_unique(e.insert(k, v)),
{
    let f = e.insert(k, v);
    assert forall|a: u64, b: u64|
        f.contains_key(a) && f.contains_key(b) && f[a].channel@ == f[b].channel@ implies a == b by {
        assert(e[a].channel@ == f[a].channel@);
        assert(e[b].channel@ == f[b].channel@);
    }
}

/// Asking twice for the subscription to a channel gives the same
/// subscription, and the second request changes nothing.
pub proof fn law_same_channel_same_subscription(
    e0: Map<u64, SubscriptionInner>,
    e1: Map<u64, SubscriptionInner>,
    e2: Map<u64, SubscriptionInner>,
    channel: Seq<char>,
    t1: u64,
    t2: u64,
    k1: u64,
    k2: u64,
)
    requires
        new_subscription_post(e0, e1, channel, t1, k1),
        new_subscription_post(e1, e2, channel, t2, k2),
    ensures
        k1 == k2,
        e2 == e1,
{
}

/// Asking for a channel that has no subscription makes an unsubscribed
/// one; asking again gives that same subscription and makes no other, and
/// looking the channel up finds it.
pub proof fn law_new_subscription_fresh(
    e0: Map<u64, SubscriptionInner>,
    e1: Map<u64, SubscriptionInner>,
    e2: Map<u64, SubscriptionInner>,
    channel: Seq<char>,
    t1: u64,
    t2: u64,
    k1: u64,
    k2: u64,
)
    requires
        key_of(e0, channel) is None,
        new_subscription_post(e0, e1, channel, t1, k1),
        new_subscription_post(e1, e2, channel, t2, k2),
    ensures
        e1.contains_key(k1),
        e1[k1].state == State::Unsubscribed,
        k2 == k1,
        e2 == e1,
        key_of(e2, channel) == Some(k1),
{
}

/// A subscription that is not unsubscribed cannot be removed; once
/// unsubscribed, removing it succeeds and its channel has no subscription
/// any more.
pub proof fn law_remove_after_unsubscribe(
    e0: Map<u64, SubscriptionInner>,
    e1: Map<u64, SubscriptionInner>,
    e2: Map<u64, SubscriptionInner>,
    k: u64,
    stopped: bool,
    r: Result<(), RemoveSubscriptionError>,
)
    requires
        channels_unique(e0),
        e0.contains_key(k),
        unsubscribe_post(e0, e1, k, stopped),
        remove_post(e1, e2, k, r),
    ensures
        r is Ok,
        !e2.contains_key(k),
        key_of(e2, e0[k].channel@) is None,
{
    assert(e1.contains_key(k) && e1[k].channel == e0[k].channel);
    assert forall|x: u64| #[trigger] e2.contains_key(x) implies e2[x].channel@ != e0[k].channel@ by {
        assert(x != k);
        assert(e1.contains_key(x) && e1[x] == e2[x]);
        assert(e0.contains_key(x) && e0[x].channel == e1[x].channel);
    }
}

/// Removing a subscription that is not unsubscribed is refused and
/// changes nothing.
pub proof fn law_remove_refused_while_active(
    e0: Map<u64, SubscriptionInner>,
    e1: Map<u64, SubscriptionInner>,
    k: u64,
    r: Result<(), RemoveSubscriptionError>,
)
    requires
        e0.contains_key(k),
        e0[k].state != State::Unsubscribed,
        remove_post(e0, e1, k, r),
    ensures
        r == Err::<(), RemoveSubscriptionError>(RemoveSubscriptionError::NotUnsubscribed),
        e1 == e0,
{
}

/// Subscribing and then unsubscribing a subscription leaves it
/// unsubscribed without a queue, on the same channel.
pub proof fn law_subscribe_then_unsubscribe(
    e0: Map<u64, SubscriptionInner>,
    e1: Map<u64, SubscriptionInner>,
    e2: Map<u64, SubscriptionInner>,
    k: u64,
    started: bool,
    stopped: bool,
)
    requires
        e0.contains_key(k),
        e0[k].state == State::Unsubscribed,
        subscribe_post(e0, e1, k, started),
        unsubscribe_post(e1, e2, k, stopped),
    ensures
        started,
        stopped,
        e2[k].state == State::Unsubscribed,
        e2[k].pub_queue is None,
        e2[k].channel == e0[k].channel,
        e2 == e0.insert(k, e2[k]),
{
    assert(e2 =~= e0.insert(k, e2[k]));
}

/// A publication pushed on a channel reaches a subscription only while it
/// is subscribed.
pub proof fn law_publications_only_when_subscribed(e: Map<u64, SubscriptionInner>, channel: Seq<char>)
    ensures
        publication_target_of(e, channel) matches Some(k) ==> e.contains_key(k) && e[k].state
            == State::Subscribed && e[k].channel@ == channel,
{
}

} // verus!
