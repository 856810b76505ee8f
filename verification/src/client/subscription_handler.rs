//! The subscription task of a connection: which subscribe and unsubscribe
//! requests to send when a subscription changes.

use vstd::prelude::*;
use crate::client_handler::ReplyError;
use crate::protocol::{Command, Reply, SubscribeRequest, UnsubscribeRequest};
use crate::subscription::{State, SubscriptionId, Subscriptions};

verus! {

/// What the task sends after being told of a subscription.
#[derive(Debug)]
pub enum SyncAction {
    /// Nothing to send.
    Nothing,
    /// A subscribe request; when it is answered, the subscription's
    /// publication writer starts.
    Subscribe(Command),
    /// An unsubscribe request; when it is answered, the subscription's
    /// `unsubscribe` waiters are answered.
    Unsubscribe(Command),
}

/// A subscribe request for `channel`, with every other field at its
/// default.
pub open spec fn is_subscribe_for(c: Command, channel: Seq<char>) -> bool {
    c matches Command::Subscribe(r) && r.channel@ == channel && r.token@.len() == 0 && !r.recover
        && r.epoch@.len() == 0 && r.offset == 0 && r.data@.len() == 0 && !r.positioned
        && !r.recoverable && !r.join_leave
}

/// The subscriptions the task has subscribed on this connection (and not
/// unsubscribed since), each once.
pub struct SubscriptionSync {
    subscribed: Vec<SubscriptionId>,
}

impl SubscriptionSync {
    /// The keys of the subscriptions subscribed on this connection.
    pub closed spec fn subscribed(&self) -> Seq<u64> {
        self.subscribed@.map_values(|id: SubscriptionId| id.key())
    }

    /// No subscription is listed twice.
    pub open spec fn wf(&self) -> bool {
        self.subscribed().no_duplicates()
    }

    /// Whether `k` is subscribed on this connection.
    pub open spec fn has(&self, k: u64) -> bool {
        self.subscribed().contains(k)
    }

    /// A new connection: nothing subscribed.
    pub fn new() -> (s: Self)
        ensures
            s.wf(),
            s.subscribed() =~= Seq::empty(),
    {
        SubscriptionSync { subscribed: Vec::new() }
    }

    fn position(&self, id: SubscriptionId) -> (r: Option<usize>)
        ensures
            r matches Some(i) ==> i < self.subscribed().len() && self.subscribed()[i as int] == id.key(),
            r is None ==> !self.has(id.key()),
    {
        let k = id.as_u64();
        let mut i: usize = 0;
        while i < self.subscribed.len()
            invariant
                0 <= i <= self.subscribed.len(),
                k == id.key(),
                forall|j: int| 0 <= j < i ==> self.subscribed@[j].key() != k,
            decreases self.subscribed.len() - i,
        {
            if self.subscribed[i].as_u64() == k {
                return Some(i);
            }
            i = i + 1;
        }
        proof {
            if self.subscribed().contains(k) {
                let j = choose|j: int| 0 <= j < self.subscribed().len() && self.subscribed()[j] == k;
                assert(self.subscribed@[j].key() == k);
            }
        }
        None
    }

    /// The task was told of subscription `id`: a subscription that is not
    /// unsubscribed and not subscribed on this connection gets a subscribe
    /// request; an unsubscribed one that is subscribed on this connection
    /// gets an unsubscribe request; otherwise nothing is sent.
    pub fn on_notified(&mut self, subs: &Subscriptions, id: SubscriptionId) -> (a: SyncAction)
        requires
            subs.wf(),
            old(self).wf(),
        ensures
            final(self).wf(),
            !subs.entries().contains_key(id.key()) ==> (a is Nothing && final(self).subscribed() == old(self).subscribed()),
            subs.entries().contains_key(id.key()) ==> {
                let sub = subs.entries()[id.key()];
                if sub.state != State::Unsubscribed && !old(self).has(id.key()) {
                    &&& a matches SyncAction::Subscribe(c) && is_subscribe_for(c, sub.channel@)
                    &&& final(self).subscribed() == old(self).subscribed().push(id.key())
                } else if sub.state == State::Unsubscribed && old(self).has(id.key()) {
                    &&& a matches SyncAction::Unsubscribe(c) && c == Command::Unsubscribe(
                        UnsubscribeRequest { channel: sub.channel },
                    )
                    &&& final(self).subscribed().to_set() == old(self).subscribed().to_set().remove(id.key())
                    &&& final(self).subscribed().len() + 1 == old(self).subscribed().len()
                } else {
                    a is Nothing && final(self).subscribed() == old(self).subscribed()
                }
            },
    {
        let state = subs.state(id);
        if !subs.contains(id) {
            return SyncAction::Nothing;
        }
        let channel = subs.channel_of(id);
        let pos = self.position(id);
        if state != State::Unsubscribed && pos.is_none() {
            self.subscribed.push(id);
            proof {
                assert(self.subscribed() =~= old(self).subscribed().push(id.key()));
            }
            let req = SubscribeRequest {
                channel,
                token: String::new(),
                recover: false,
                epoch: String::new(),
                offset: 0,
                data: Vec::new(),
                positioned: false,
                recoverable: false,
                join_leave: false,
            };
            return SyncAction::Subscribe(Command::Subscribe(req));
        }
        if state == State::Unsubscribed {
            match pos {
                Some(i) => {
                    let ghost before = self.subscribed();
                    self.subscribed.remove(i);
                    proof {
                        assert(self.subscribed() =~= before.remove(i as int));
                        lemma_remove_unique(before, i as int);
                    }
                    return SyncAction::Unsubscribe(
                        Command::Unsubscribe(UnsubscribeRequest { channel }),
                    );
                },
                None => {},
            }
        }
        SyncAction::Nothing
    }
}

/// Removing the element at `i` from a sequence without duplicates removes
/// that element from its set and keeps it without duplicates.
proof fn lemma_remove_unique(s: Seq<u64>, i: int)
    requires
        s.no_duplicates(),
        0 <= i < s.len(),
    ensures
        s.remove(i).no_duplicates(),
        s.remove(i).to_set() =~= s.to_set().remove(s[i]),
{
    let r = s.remove(i);
    assert forall|a: int, b: int| 0 <= a < b < r.len() implies r[a] != r[b] by {
        let sa = if a < i { a } else { a + 1 };
        let sb = if b < i { b } else { b + 1 };
        assert(r[a] == s[sa] && r[b] == s[sb]);
    }
    assert forall|x: u64| r.to_set().contains(x) <==> s.to_set().remove(s[i]).contains(x) by {
        if r.contains(x) {
            let a = choose|a: int| 0 <= a < r.len() && r[a] == x;
            let sa = if a < i { a } else { a + 1 };
            assert(s[sa] == x);
            assert(sa != i);
        }
        if s.contains(x) && x != s[i] {
            let b = choose|b: int| 0 <= b < s.len() && s[b] == x;
            assert(b != i);
            let rb = if b < i { b } else { b - 1 };
            assert(r[rb] == x);
        }
    }
}

/// Whether the answer to a subscribe request accepted it (`None` when the
/// waiter was dropped without one).
pub fn subscribe_accepted(answer: &Option<Result<Reply, ReplyError>>) -> (b: bool)
    ensures
        b == (answer matches Some(Ok(Reply::Subscribe(_)))),
{
    match answer {
        Some(Ok(Reply::Subscribe(_))) => true,
        _ => false,
    }
}

} // verus!
