//! Connection state of a client, and the queue of requests waiting to be
//! written to the connection.
//!
//! Each request carries a deadline; a request whose deadline has passed is
//! dropped from the front of the queue and reported as timed out instead of
//! being sent.  Times are ticks of a monotonic clock read by the caller.

use std::collections::VecDeque;
use vstd::prelude::*;
use crate::protocol::Command;

verus! {

/// Represents the current connection state of the client.
#[derive(Debug, Clone, Copy, PartialEq, Eq, Structural)]
pub enum State {
    /// Client is not connected to any server
    Disconnected,
    /// Client is attempting to establish a connection
    Connecting,
    /// Client has successfully connected to the server
    Connected,
}

/// A request in the queue: the command, the ticket under which the caller
/// waits for its reply, and its deadline.
#[derive(Debug, Clone)]
pub struct MessageStoreItem {
    pub command: Command,
    pub ticket: u64,
    pub deadline: u64,
}

impl MessageStoreItem {
    /// The request itself while its deadline is after `now`; `None` once it
    /// has expired (its waiter is then told that it timed out).
    pub fn check_expiration(self, now: u64) -> (r: Option<Self>)
        ensures
            r == (if self.deadline > now {
                Some(self)
            } else {
                None::<Self>
            }),
    {
        if self.deadline > now {
            Some(self)
        } else {
            None
        }
    }
}

/// The queue without the requests at its front whose deadline is not after
/// `now`.
pub open spec fn live_part(q: Seq<MessageStoreItem>, now: u64) -> Seq<MessageStoreItem>
    decreases q.len(),
{
    if q.len() > 0 && q[0].deadline <= now {
        live_part(q.drop_first(), now)
    } else {
        q
    }
}

/// The tickets of the requests at the front of the queue whose deadline is
/// not after `now`, in queue order.
pub open spec fn expired_part(q: Seq<MessageStoreItem>, now: u64) -> Seq<u64>
    decreases q.len(),
{
    if q.len() > 0 && q[0].deadline <= now {
        seq![q[0].ticket] + expired_part(q.drop_first(), now)
    } else {
        seq![]
    }
}

/// What taking up to `max` live requests from `q` at `now` gives: the
/// requests taken, the tickets of the requests that expired on the way, and
/// what is left.
pub open spec fn batch_from(q: Seq<MessageStoreItem>, now: u64, max: nat) -> (
    Seq<MessageStoreItem>,
    Seq<u64>,
    Seq<MessageStoreItem>,
)
    decreases max,
{
    let live = live_part(q, now);
    let expired = expired_part(q, now);
    if max == 0 {
        (seq![], seq![], q)
    } else if live.len() == 0 {
        (seq![], expired, live)
    } else {
        let rest = batch_from(live.drop_first(), now, (max - 1) as nat);
        (seq![live[0]] + rest.0, expired + rest.1, rest.2)
    }
}

/// Requests waiting to be written, oldest first.
#[derive(Debug)]
pub struct MessageStore {
    timeout: u64,
    items: VecDeque<MessageStoreItem>,
}

impl MessageStore {
    /// The requests in the queue, oldest first.
    pub closed spec fn requests(&self) -> Seq<MessageStoreItem> {
        self.items@
    }

    /// How many ticks a request may wait before it expires.
    pub closed spec fn timeout(&self) -> u64 {
        self.timeout
    }

    /// An empty queue whose requests expire `timeout` ticks after they are
    /// queued.
    pub fn new(timeout: u64) -> (q: Self)
        ensures
            q.requests() == Seq::<MessageStoreItem>::empty(),
            q.timeout() == timeout,
    {
        MessageStore { timeout, items: VecDeque::new() }
    }

    /// Drops every request (their waiters learn that the queue is gone);
    /// returns their tickets, in queue order.
    pub fn clear(&mut self) -> (tickets: Vec<u64>)
        ensures
            final(self).timeout() == old(self).timeout(),
            final(self).requests() =~= Seq::<MessageStoreItem>::empty(),
            tickets@ == old(self).requests().map_values(|r: MessageStoreItem| r.ticket),
    {
        let mut tickets: Vec<u64> = Vec::new();
        let ghost start = self.items@;
        loop
            invariant
                start == old(self).items@,
                self.timeout == old(self).timeout,
                self.items@.len() <= start.len(),
                self.items@ == start.skip(start.len() - self.items@.len()),
                tickets@ == start.take(start.len() - self.items@.len()).map_values(
                    |r: MessageStoreItem| r.ticket,
                ),
            decreases self.items@.len(),
        {
            let ghost before = self.items@;
            match self.items.pop_front() {
                None => {
                    assert(start.take(start.len() as int) =~= start);
                    return tickets;
                },
                Some(item) => {
                    proof {
                        let k = start.len() - before.len();
                        assert(start[k] == item);
                        assert(self.items@ =~= start.skip(k + 1));
                        assert(start.take(k + 1).map_values(|r: MessageStoreItem| r.ticket)
                            =~= start.take(k).map_values(|r: MessageStoreItem| r.ticket).push(item.ticket));
                    }
                    tickets.push(item.ticket);
                },
            }
        }
    }

    /// Drops the expired requests at the front; returns their tickets.
    fn drop_expired(&mut self, now: u64) -> (expired: Vec<u64>)
        ensures
            final(self).timeout() == old(self).timeout(),
            final(self).requests() == live_part(old(self).requests(), now),
            expired@ == expired_part(old(self).requests(), now),
    {
        let mut expired: Vec<u64> = Vec::new();
        let ghost start = self.items@;
        loop
            invariant
                start == old(self).items@,
                self.timeout == old(self).timeout,
                live_part(self.items@, now) == live_part(start, now),
                expired@ + expired_part(self.items@, now) == expired_part(start, now),
            decreases self.items@.len(),
        {
            let ghost before = self.items@;
            match self.items.pop_front() {
                None => {
                    assert(expired@ + seq![] =~= expired@);
                    return expired;
                },
                Some(item) => {
                    let ticket = item.ticket;
                    match item.check_expiration(now) {
                        Some(item) => {
                            self.items.push_front(item);
                            assert(self.items@ =~= before);
                            assert(expired@ + seq![] =~= expired@);
                            return expired;
                        },
                        None => {
                            proof {
                                assert(before.drop_first() =~= self.items@);
                                assert(expired@.push(ticket) + expired_part(self.items@, now)
                                    =~= expired@ + expired_part(before, now));
                            }
                            expired.push(ticket);
                        },
                    }
                },
            }
        }
    }

    /// Queues a request made at `now`, which expires `timeout` ticks later,
    /// and drops the expired requests at the front, returning their tickets.
    pub fn send(&mut self, command: Command, ticket: u64, now: u64) -> (expired: Vec<u64>)
        requires
            now + old(self).timeout() <= u64::MAX,
        ensures
            final(self).timeout() == old(self).timeout(),
            final(self).requests() == live_part(
                old(self).requests().push(
                    MessageStoreItem { command, ticket, deadline: (now + old(self).timeout()) as u64 },
                ),
                now,
            ),
            expired@ == expired_part(
                old(self).requests().push(
                    MessageStoreItem { command, ticket, deadline: (now + old(self).timeout()) as u64 },
                ),
                now,
            ),
    {
        let deadline = now + self.timeout;
        self.items.push_back(MessageStoreItem { command, ticket, deadline });
        self.drop_expired(now)
    }

    /// The oldest request whose deadline is after `now`, dropping (and
    /// returning the tickets of) the expired requests before it.
    pub fn get_next(&mut self, now: u64) -> (r: (Option<MessageStoreItem>, Vec<u64>))
        ensures
            final(self).timeout() == old(self).timeout(),
            r.1@ == expired_part(old(self).requests(), now),
            live_part(old(self).requests(), now).len() == 0 ==> (r.0 is None
                && final(self).requests().len() == 0),
            live_part(old(self).requests(), now).len() > 0 ==> (r.0 == Some(
                live_part(old(self).requests(), now)[0],
            ) && final(self).requests() == live_part(old(self).requests(), now).drop_first()),
    {
        let expired = self.drop_expired(now);
        let ghost live = self.items@;
        let first = self.items.pop_front();
        proof {
            if live.len() > 0 {
                assert(self.items@ =~= live.drop_first());
            }
        }
        (first, expired)
    }

    /// Takes up to `max` live requests, oldest first, as the writer does
    /// before each write; returns them and the tickets of the requests that
    /// expired on the way.
    pub fn take_batch(&mut self, now: u64, max: usize) -> (r: (Vec<MessageStoreItem>, Vec<u64>))
        ensures
            final(self).timeout() == old(self).timeout(),
            r.0@ == batch_from(old(self).requests(), now, max as nat).0,
            r.1@ == batch_from(old(self).requests(), now, max as nat).1,
            final(self).requests() == batch_from(old(self).requests(), now, max as nat).2,
    {
        let mut taken: Vec<MessageStoreItem> = Vec::new();
        let mut expired: Vec<u64> = Vec::new();
        let ghost start = self.items@;
        let mut left = max;
        loop
            invariant
                start == old(self).items@,
                self.timeout == old(self).timeout,
                left <= max,
                taken@ + batch_from(self.items@, now, left as nat).0 == batch_from(
                    start,
                    now,
                    max as nat,
                ).0,
                expired@ + batch_from(self.items@, now, left as nat).1 == batch_from(
                    start,
                    now,
                    max as nat,
                ).1,
                batch_from(self.items@, now, left as nat).2 == batch_from(start, now, max as nat).2,
            decreases left,
        {
            if left == 0 {
                assert(taken@ + seq![] =~= taken@);
                assert(expired@ + seq![] =~= expired@);
                return (taken, expired);
            }
            let ghost q = self.items@;
            let (first, mut dropped) = self.get_next(now);
            match first {
                None => {
                    proof {
                        assert(taken@ + seq![] =~= taken@);
                        assert(self.items@ =~= live_part(q, now));
                    }
                    expired.append(&mut dropped);
                    return (taken, expired);
                },
                Some(item) => {
                    proof {
                        let rest = batch_from(self.items@, now, (left - 1) as nat);
                        assert(taken@.push(item) + rest.0 =~= taken@ + (seq![item] + rest.0));
                        assert(expired@ + dropped@ + rest.1 =~= expired@ + (dropped@ + rest.1));
                    }
                    taken.push(item);
                    expired.append(&mut dropped);
                    left = left - 1;
                },
            }
        }
    }
}

/// Dropping expired requests splits the queue in two: the expired ones
/// at its front, whose tickets are reported in queue order, and the rest,
/// kept in order, which starts with a live request (if any is left).
pub proof fn law_expiry_splits_queue(q: Seq<MessageStoreItem>, now: u64)
    ensures
        expired_part(q, now).len() + live_part(q, now).len() == q.len(),
        live_part(q, now) == q.subrange(expired_part(q, now).len() as int, q.len() as int),
        forall|i: int| 0 <= i < expired_part(q, now).len() ==> (#[trigger] q[i]).deadline <= now,
        forall|i: int|
            0 <= i < expired_part(q, now).len() ==> #[trigger] expired_part(q, now)[i] == q[i].ticket,
        live_part(q, now).len() > 0 ==> live_part(q, now)[0].deadline > now,
    decreases q.len(),
{
    if q.len() > 0 && q[0].deadline <= now {
        let r = q.drop_first();
        law_expiry_splits_queue(r, now);
        assert(expired_part(q, now) == seq![q[0].ticket] + expired_part(r, now));
        assert forall|i: int| 0 <= i < expired_part(q, now).len() implies (#[trigger] q[i]).deadline
            <= now by {
            if i > 0 {
                assert(q[i] == r[i - 1]);
            }
        }
        assert forall|i: int| 0 <= i < expired_part(q, now).len() implies #[trigger] expired_part(
            q,
            now,
        )[i] == q[i].ticket by {
            if i > 0 {
                assert(expired_part(q, now)[i] == expired_part(r, now)[i - 1]);
                assert(q[i] == r[i - 1]);
            }
        }
        assert(live_part(q, now) =~= q.subrange(expired_part(q, now).len() as int, q.len() as int));
    } else {
        assert(expired_part(q, now) =~= Seq::<u64>::empty());
        assert(q.subrange(0, q.len() as int) =~= q);
    }
}

/// A request that is live when it is queued is kept, last in the queue.
pub proof fn law_live_request_is_queued(q: Seq<MessageStoreItem>, item: MessageStoreItem, now: u64)
    requires
        item.deadline > now,
    ensures
        live_part(q.push(item), now).len() > 0,
        live_part(q.push(item), now).last() == item,
    decreases q.len(),
{
    if q.len() > 0 && q[0].deadline <= now {
        assert(q.push(item).drop_first() =~= q.drop_first().push(item));
        law_live_request_is_queued(q.drop_first(), item, now);
    }
}

} // verus!
