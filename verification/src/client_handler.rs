//! Decisions of the client side of a connection: how replies read from the
//! socket are routed, how request ids are handed out, and whether a closed
//! connection is to be reconnected.

use vstd::prelude::*;
use crate::errors::{DisconnectErrorCode, reconnects_after};
use crate::protocol::{Command, RawCommand, Reply, command_to_raw};
use crate::text::{decimal_digits, decimal_string};

verus! {

/// Why a request got no reply.
#[derive(Debug, Clone, Copy, PartialEq, Eq, Structural)]
pub enum ReplyError {
    /// The request timed out waiting for a response
    Timeout,
    /// The connection was closed before receiving a reply
    Closed,
    /// The protocol used is inappropriate for the request
    InappropriateProtocol,
}

/// The message of each reply error.
pub open spec fn reply_error_text(e: ReplyError) -> Seq<char> {
    match e {
        ReplyError::Timeout => "request timed out"@,
        ReplyError::Closed => "connection closed"@,
        ReplyError::InappropriateProtocol => "inappropriate protocol"@,
    }
}

impl ReplyError {
    /// The message of the error, as its `Display` renders it.
    pub fn to_str(&self) -> (s: String)
        ensures
            s@ == reply_error_text(*self),
    {
        match self {
            ReplyError::Timeout => "request timed out".to_owned(),
            ReplyError::Closed => "connection closed".to_owned(),
            ReplyError::InappropriateProtocol => "inappropriate protocol".to_owned(),
        }
    }
}

/// Where a frame read from the socket goes.
#[derive(Debug, Clone, Copy, PartialEq, Eq, Structural)]
pub enum ReplyRoute {
    /// An empty reply is the server's ping: answer it with an empty command.
    Ping,
    /// A reply with id zero is a push.
    Push,
    /// Any other reply answers the request with that id.
    Reply(u32),
}

/// Where the frame `reply`, read with id `id`, goes.
pub fn route_reply(id: u32, reply: &Reply) -> (r: ReplyRoute)
    ensures
        r == (if *reply is Empty {
            ReplyRoute::Ping
        } else if id == 0 {
            ReplyRoute::Push
        } else {
            ReplyRoute::Reply(id)
        }),
{
    match reply {
        Reply::Empty => ReplyRoute::Ping,
        _ => if id == 0 {
            ReplyRoute::Push
        } else {
            ReplyRoute::Reply(id)
        },
    }
}

/// The error reported for a reply whose id no request waits for.
pub fn unknown_reply_text(id: u32) -> (s: String)
    ensures
        s@ == "unknown reply id="@ + decimal_digits(id as nat),
{
    let mut s = "unknown reply id=".to_owned();
    let n = decimal_string(id as u64);
    s.append(n.as_str());
    s
}

/// Whether to reconnect after the server closed the connection: the code
/// of its close frame decides; a close without a frame reconnects.
pub fn close_reconnects(code: Option<u16>) -> (b: bool)
    ensures
        b == match code {
            Some(c) => reconnects_after(c),
            None => true,
        },
{
    match code {
        Some(c) => DisconnectErrorCode(c).should_reconnect(),
        None => true,
    }
}

/// The id a counter at `next` hands out (zero is skipped), and the counter
/// after it.
pub open spec fn issue(next: u32) -> (u32, u32) {
    let id: u32 = if next == 0 {
        1
    } else {
        next
    };
    (id, if id == u32::MAX {
        0
    } else {
        (id + 1) as u32
    })
}

/// The ids handed out by `n` successive requests from a counter at `next`,
/// and the counter after them.
pub open spec fn issue_many(next: u32, n: nat) -> (Seq<u32>, u32)
    decreases n,
{
    if n == 0 {
        (seq![], next)
    } else {
        let first = issue(next);
        let rest = issue_many(first.1, (n - 1) as nat);
        (seq![first.0] + rest.0, rest.1)
    }
}

/// A command in its wire form, with the id of its request.
pub open spec fn with_id(c: Command, id: u32) -> RawCommand {
    RawCommand { id, ..command_to_raw(c) }
}

/// What the writer did with a batch of requests.
#[derive(Debug)]
pub struct BatchPlan {
    /// For each request accepted, in batch order from the first: its id,
    /// and whether a timer ends its wait (not for an endless timeout).
    pub registered: Vec<(u32, bool)>,
    /// Whether the request after the accepted ones had a zero timeout: it
    /// is answered `Timeout`, and the requests after it are dropped.
    pub timed_out: bool,
    /// The commands to write now, when the whole batch was accepted.
    pub send: Option<Vec<RawCommand>>,
}

/// The writer of a connection: the id counter and the commands accepted
/// but not yet written.
pub struct Writer {
    next: u32,
    pending: Vec<RawCommand>,
}

/// The wire forms of the first `n` commands of `batch`, with `ids`.
pub open spec fn accepted_commands(batch: Seq<(Command, u64)>, ids: Seq<u32>, n: nat) -> Seq<RawCommand> {
    Seq::new(n, |i: int| with_id(batch[i].0, ids[i]))
}

/// How many requests of `batch` come before the first with a zero
/// timeout (all of them when there is none).
pub open spec fn accepted_count(batch: Seq<(Command, u64)>) -> nat
    decreases batch.len(),
{
    if batch.len() == 0 || batch[0].1 == 0 {
        0
    } else {
        1 + accepted_count(batch.drop_first())
    }
}

impl Writer {
    pub closed spec fn next(&self) -> u32 {
        self.next
    }

    pub closed spec fn pending(&self) -> Seq<RawCommand> {
        self.pending@
    }

    /// A new writer: ids start at one, nothing pending.
    pub fn new() -> (w: Self)
        ensures
            w.next() == 1,
            w.pending() =~= Seq::empty(),
    {
        Writer { next: 1, pending: Vec::new() }
    }

    /// Hands out the next request id; zero, which marks pushes, is
    /// skipped.
    pub fn next_id(&mut self) -> (id: u32)
        ensures
            (id, final(self).next()) == issue(old(self).next()),
            final(self).pending() == old(self).pending(),
    {
        let mut id = self.next;
        self.next = self.next.wrapping_add(1);
        if id == 0 {
            id = self.next;
            self.next = self.next.wrapping_add(1);
        }
        proof {
            assert(0u32.wrapping_add(1) == 1u32);
        }
        id
    }

    /// Takes a batch of requests (command, timeout in ticks) read from the
    /// control channel.  Requests are given ids in order until one has a
    /// zero timeout: that one is answered `Timeout`, the rest of the batch
    /// is dropped, and the accepted commands wait for the next batch.
    /// Otherwise all the pending commands are written.
    pub fn accept_batch(&mut self, batch: Vec<(Command, u64)>) -> (a: BatchPlan)
        ensures
            ({
                let n = accepted_count(batch@);
                let issued = issue_many(old(self).next(), n);
                let all = old(self).pending() + accepted_commands(batch@, issued.0, n);
                &&& a.registered.len() == n
                &&& a.timed_out == (n < batch.len())
                &&& forall|i: int| 0 <= i < n ==> (#[trigger] a.registered@[i]).0 == issued.0[i]
                    && a.registered@[i].1 == (batch@[i].1 != u64::MAX)
                &&& final(self).next() == issued.1
                &&& a.timed_out ==> a.send is None && final(self).pending() == all
                &&& !a.timed_out ==> final(self).pending().len() == 0
                &&& !a.timed_out && all.len() > 0 ==> (a.send matches Some(v) && v@ == all)
                &&& !a.timed_out && all.len() == 0 ==> a.send is None
            }),
    {
        let mut registered: Vec<(u32, bool)> = Vec::new();
        let mut rest = batch;
        let ghost all = rest@;
        let ghost start = self.next;
        let ghost pend0 = self.pending@;
        let ghost mut ids: Seq<u32> = seq![];
        let mut i: usize = 0;
        let n = rest.len();
        while i < n
            invariant
                start == old(self).next,
                pend0 == old(self).pending@,
                all == batch@,
                n == all.len(),
                rest@ == all.subrange(i as int, n as int),
                0 <= i <= n,
                forall|j: int| 0 <= j < i ==> all[j].1 != 0,
                registered.len() == i,
                ids.len() == i,
                (ids, self.next) == issue_many(start, i as nat),
                forall|j: int| 0 <= j < i ==> (#[trigger] registered@[j]).0 == ids[j] && registered@[j].1
                    == (all[j].1 != u64::MAX),
                self.pending@ == pend0 + accepted_commands(all, ids, i as nat),
            decreases n - i,
        {
            let (c, timeout) = rest.remove(0);
            assert((c, timeout) == all[i as int]);
            if timeout == 0 {
                proof {
                    lemma_accepted_count_stops(all, i as nat);
                }
                return BatchPlan { registered, timed_out: true, send: None };
            }
            let id = self.next_id();
            let mut raw = RawCommand::from(c);
            raw.id = id;
            self.pending.push(raw);
            registered.push((id, timeout != u64::MAX));
            proof {
                lemma_issue_many_step(start, i as nat);
                let old_ids = ids;
                ids = ids.push(id);
                assert(accepted_commands(all, ids, (i + 1) as nat) =~= accepted_commands(all, old_ids, i as nat).push(
                    with_id(all[i as int].0, id),
                ));
                assert(rest@ =~= all.subrange(i + 1, n as int));
            }
            i = i + 1;
        }
        proof {
            lemma_accepted_count_all(all);
        }
        if self.pending.len() == 0 {
            return BatchPlan { registered, timed_out: false, send: None };
        }
        let mut sent: Vec<RawCommand> = Vec::new();
        std::mem::swap(&mut sent, &mut self.pending);
        BatchPlan { registered, timed_out: false, send: Some(sent) }
    }
}

/// Handing out one more id extends the ids handed out.
proof fn lemma_issue_many_step(next: u32, n: nat)
    ensures
        issue_many(next, n + 1).0 == issue_many(next, n).0.push(issue(issue_many(next, n).1).0),
        issue_many(next, n + 1).1 == issue(issue_many(next, n).1).1,
    decreases n,
{
    reveal_with_fuel(issue_many, 2);
    if n == 0 {
        assert(issue_many(next, 1).0 =~= seq![issue(next).0]);
    } else {
        let next1 = issue(next).1;
        lemma_issue_many_step(next1, (n - 1) as nat);
        assert(issue_many(next, n).0 == seq![issue(next).0] + issue_many(next1, (n - 1) as nat).0);
        assert(issue_many(next, n).1 == issue_many(next1, (n - 1) as nat).1);
        assert(issue_many(next, n + 1).0 == seq![issue(next).0] + issue_many(next1, n).0);
        assert(issue_many(next, n + 1).0 =~= issue_many(next, n).0.push(issue(issue_many(next, n).1).0));
    }
}

/// The count of accepted requests stops at the first zero timeout.
proof fn lemma_accepted_count_stops(b: Seq<(Command, u64)>, i: nat)
    requires
        i < b.len(),
        b[i as int].1 == 0,
        forall|j: int| 0 <= j < i ==> b[j].1 != 0,
    ensures
        accepted_count(b) == i,
    decreases i,
{
    if i > 0 {
        lemma_accepted_count_stops(b.drop_first(), (i - 1) as nat);
    }
}

/// Without a zero timeout, every request is accepted.
proof fn lemma_accepted_count_all(b: Seq<(Command, u64)>)
    requires
        forall|j: int| 0 <= j < b.len() ==> b[j].1 != 0,
    ensures
        accepted_count(b) == b.len(),
    decreases b.len(),
{
    if b.len() > 0 {
        lemma_accepted_count_all(b.drop_first());
    }
}

/// No two entries share a request id.
pub open spec fn ids_unique<T>(s: Seq<(u32, T)>) -> bool {
    forall|i: int, j: int| 0 <= i < s.len() && 0 <= j < s.len() && i != j ==> #[trigger] s[i].0 != #[trigger] s[j].0
}

/// The waiter registered under `id` in `s`, if there is one.
pub open spec fn waiter_of<T>(s: Seq<(u32, T)>, id: u32) -> Option<T>
    decreases s.len(),
{
    if s.len() == 0 {
        None
    } else if s.last().0 == id {
        Some(s.last().1)
    } else {
        waiter_of(s.drop_last(), id)
    }
}

/// `s` without the entry under `id`, the others in their order.
pub open spec fn without<T>(s: Seq<(u32, T)>, id: u32) -> Seq<(u32, T)>
    decreases s.len(),
{
    if s.len() == 0 {
        s
    } else if s.last().0 == id {
        without(s.drop_last(), id)
    } else {
        without(s.drop_last(), id).push(s.last())
    }
}

/// The waiters of `s`, in order.
pub open spec fn waiters<T>(s: Seq<(u32, T)>) -> Seq<T> {
    s.map_values(|e: (u32, T)| e.1)
}

/// The requests of a connection that wait for their reply: each waiter
/// under the id of its request, in the order they were written.  A waiter
/// leaves when its reply comes, when its time is up, or when its command
/// could not be encoded; those left when the connection ends are answered
/// `Closed`.
pub struct PendingReplies<T> {
    entries: Vec<(u32, T)>,
}

impl<T> PendingReplies<T> {
    pub closed spec fn entries(&self) -> Seq<(u32, T)> {
        self.entries@
    }

    pub open spec fn wf(&self) -> bool {
        ids_unique(self.entries())
    }

    /// No request waits.
    pub fn new() -> (p: Self)
        ensures
            p.wf(),
            p.entries() == Seq::<(u32, T)>::empty(),
    {
        PendingReplies { entries: Vec::new() }
    }

    /// The number of waiting requests.
    pub fn len(&self) -> (n: usize)
        ensures
            n == self.entries().len(),
    {
        self.entries.len()
    }

    /// The position of the entry under `id`, if there is one.
    fn position(&self, id: u32) -> (r: Option<usize>)
        requires
            self.wf(),
        ensures
            match r {
                Some(i) => i < self.entries().len() && self.entries()[i as int].0 == id,
                None => forall|j: int| 0 <= j < self.entries().len() ==> #[trigger] self.entries()[j].0 != id,
            },
    {
        let mut i: usize = 0;
        while i < self.entries.len()
            invariant
                i <= self.entries@.len(),
                forall|j: int| 0 <= j < i ==> #[trigger] self.entries@[j].0 != id,
            decreases self.entries@.len() - i,
        {
            if self.entries[i].0 == id {
                return Some(i);
            }
            i = i + 1;
        }
        None
    }

    /// Takes the waiter of the request `id` out, for its reply, its timeout
    /// or its encoding failure: `None` if no request waits under `id`.
    pub fn take(&mut self, id: u32) -> (w: Option<T>)
        requires
            old(self).wf(),
        ensures
            final(self).wf(),
            w == waiter_of(old(self).entries(), id),
            final(self).entries() == without(old(self).entries(), id),
    {
        proof {
            lemma_without_keeps_unique(self.entries@, id);
        }
        match self.position(id) {
            Some(i) => {
                proof {
                    lemma_take_at(self.entries@, id, i as int);
                }
                let (_, w) = self.entries.remove(i);
                Some(w)
            },
            None => {
                proof {
                    lemma_take_absent(self.entries@, id);
                }
                None
            },
        }
    }

    /// Registers `waiter` for the request `id`, written last; a waiter
    /// that was under the same id is taken out and returned.
    pub fn register(&mut self, id: u32, waiter: T) -> (replaced: Option<T>)
        requires
            old(self).wf(),
        ensures
            final(self).wf(),
            replaced == waiter_of(old(self).entries(), id),
            final(self).entries() == without(old(self).entries(), id).push((id, waiter)),
    {
        let replaced = self.take(id);
        proof {
            lemma_absent_after_without(old(self).entries(), id);
        }
        self.entries.push((id, waiter));
        replaced
    }

    /// Takes every waiter out, in order, for the end of the connection.
    pub fn drain(&mut self) -> (all: Vec<T>)
        ensures
            final(self).entries() == Seq::<(u32, T)>::empty(),
            all@ == waiters(old(self).entries()),
    {
        let mut all: Vec<T> = Vec::new();
        let ghost start = self.entries@;
        while self.entries.len() > 0
            invariant
                all@ + waiters(self.entries@) == waiters(start),
            decreases self.entries@.len(),
        {
            let ghost before = self.entries@;
            let (_, w) = self.entries.remove(0);
            proof {
                assert(waiters(before) =~= seq![w] + waiters(self.entries@));
                assert(all@.push(w) + waiters(self.entries@) =~= all@ + waiters(before));
            }
            all.push(w);
        }
        assert(all@ =~= waiters(start));
        all
    }
}

/// Entries before `i` keep their waiters when the entry at `i` is removed.
proof fn lemma_take_at<T>(s: Seq<(u32, T)>, id: u32, i: int)
    requires
        ids_unique(s),
        0 <= i < s.len(),
        s[i].0 == id,
    ensures
        waiter_of(s, id) == Some(s[i].1),
        without(s, id) == s.remove(i),
    decreases s.len(),
{
    if i == s.len() - 1 {
        assert(s.drop_last() =~= s.remove(i));
        assert forall|j: int| 0 <= j < s.drop_last().len() implies #[trigger] s.drop_last()[j].0 != id by {
            assert(s[j].0 != s[i].0);
        }
        lemma_take_absent(s.drop_last(), id);
    } else {
        let d = s.drop_last();
        assert(s.last().0 != id) by {
            assert(s[s.len() - 1].0 != s[i].0);
        }
        assert(ids_unique(d));
        lemma_take_at(d, id, i);
        assert(s.remove(i) =~= d.remove(i).push(s.last()));
    }
}

/// Without an entry under `id`, there is no waiter for it and nothing to
/// remove.
proof fn lemma_take_absent<T>(s: Seq<(u32, T)>, id: u32)
    requires
        forall|j: int| 0 <= j < s.len() ==> #[trigger] s[j].0 != id,
    ensures
        waiter_of(s, id) is None,
        without(s, id) == s,
    decreases s.len(),
{
    if s.len() > 0 {
        let d = s.drop_last();
        assert(s.last().0 != id) by {
            assert(s[s.len() - 1].0 != id);
        }
        assert forall|j: int| 0 <= j < d.len() implies #[trigger] d[j].0 != id by {
            assert(s[j].0 != id);
        }
        lemma_take_absent(d, id);
        assert(d.push(s.last()) =~= s);
    }
}

/// Removing the entry under `id` leaves a subsequence: every entry left was
/// in `s` before, under another id, and ids stay unique.
proof fn lemma_without_keeps_unique<T>(s: Seq<(u32, T)>, id: u32)
    requires
        ids_unique(s),
    ensures
        ids_unique(without(s, id)),
        forall|j: int| 0 <= j < without(s, id).len() ==> #[trigger] without(s, id)[j].0 != id,
        forall|j: int|
            0 <= j < without(s, id).len() ==> exists|k: int| 0 <= k < s.len() && s[k] == #[trigger] without(s, id)[j],
    decreases s.len(),
{
    if s.len() > 0 {
        let d = s.drop_last();
        assert(ids_unique(d));
        lemma_without_keeps_unique(d, id);
        let w = without(d, id);
        assert forall|j: int| 0 <= j < w.len() implies exists|k: int| 0 <= k < s.len() && s[k] == #[trigger] w[j] by {
            let k = choose|k: int| 0 <= k < d.len() && d[k] == w[j];
            assert(s[k] == w[j]);
        }
        if s.last().0 != id {
            let r = w.push(s.last());
            assert forall|j: int| 0 <= j < r.len() implies exists|k: int| 0 <= k < s.len() && s[k] == #[trigger] r[j] by {
                if j == w.len() {
                    assert(s[s.len() - 1] == r[j]);
                } else {
                    assert(r[j] == w[j]);
                }
            }
            assert forall|a: int, b: int| 0 <= a < r.len() && 0 <= b < r.len() && a != b implies #[trigger] r[a].0
                != #[trigger] r[b].0 by {
                if a == w.len() {
                    let k = choose|k: int| 0 <= k < d.len() && d[k] == w[b];
                    assert(s[k] == r[b]);
                    assert(s[s.len() - 1].0 != s[k].0);
                } else if b == w.len() {
                    let k = choose|k: int| 0 <= k < d.len() && d[k] == w[a];
                    assert(s[k] == r[a]);
                    assert(s[s.len() - 1].0 != s[k].0);
                } else {
                    assert(r[a] == w[a] && r[b] == w[b]);
                }
            }
            assert forall|j: int| 0 <= j < r.len() implies #[trigger] r[j].0 != id by {
                if j < w.len() {
                    assert(r[j] == w[j]);
                }
            }
        }
    }
}

/// After the entry under `id` is removed, no entry is under `id`.
proof fn lemma_absent_after_without<T>(s: Seq<(u32, T)>, id: u32)
    requires
        ids_unique(s),
    ensures
        forall|j: int| 0 <= j < without(s, id).len() ==> #[trigger] without(s, id)[j].0 != id,
{
    lemma_without_keeps_unique(s, id);
}

/// A reply is delivered once: after the waiter of a request is taken out,
/// taking it again finds nothing.
pub proof fn law_waiter_taken_once<T>(s: Seq<(u32, T)>, id: u32)
    requires
        ids_unique(s),
    ensures
        waiter_of(without(s, id), id) is None,
        without(without(s, id), id) == without(s, id),
{
    lemma_without_keeps_unique(s, id);
    lemma_take_absent(without(s, id), id);
}

/// Taking out the waiter of a request just registered under a fresh id
/// gives that waiter back and leaves the other requests as they were.
pub proof fn law_take_undoes_register<T>(s: Seq<(u32, T)>, id: u32, waiter: T)
    requires
        ids_unique(s),
        waiter_of(s, id) is None,
    ensures
        waiter_of(without(s, id).push((id, waiter)), id) == Some(waiter),
        without(without(s, id).push((id, waiter)), id) == s,
{
    lemma_without_keeps_unique(s, id);
    let w = without(s, id);
    let r = w.push((id, waiter));
    assert(r.drop_last() =~= w);
    lemma_take_absent(w, id);
    assert forall|j: int| 0 <= j < s.len() implies #[trigger] s[j].0 != id by {
        if s[j].0 == id {
            lemma_take_at(s, id, j);
        }
    }
    lemma_take_absent(s, id);
}

/// One request id is handed out at a time, in counting order: a counter at
/// `next` (neither zero nor the last value) hands out `next` and moves to
/// `next + 1`; at zero it hands out one; at the last value it hands that
/// out and wraps to zero.
pub proof fn law_ids_count_up(next: u32)
    ensures
        0 < next < u32::MAX ==> issue(next) == (next, (next + 1) as u32),
        issue(0) == (1u32, 2u32),
        issue(u32::MAX) == (u32::MAX, 0u32),
{
}

/// The first id a counter at `next` hands out.
pub open spec fn first_id(next: u32) -> int {
    if next == 0 {
        1
    } else {
        next as int
    }
}

/// The id the counter hands out after `n` requests.
proof fn lemma_ids_cycle_counter(next: u32, n: nat)
    ensures
        issue(issue_many(next, n).1).0 == ((first_id(next) - 1 + n) % (u32::MAX as int)) + 1,
    decreases n,
{
    let m = u32::MAX as int;
    if n == 0 {
        assert(((first_id(next) - 1) % m) == first_id(next) - 1);
    } else {
        let k = (n - 1) as nat;
        lemma_ids_cycle_counter(next, k);
        lemma_issue_many_step(next, k);
        let c = issue_many(next, k).1;
        let v = issue(c).0;
        let a = first_id(next) - 1 + k;
        assert(v == (a % m) + 1);
        assert(a >= 0);
        assert((a + 1) % m == if a % m == m - 1 { 0 } else { a % m + 1 }) by (nonlinear_arith)
            requires
                a >= 0,
                m == u32::MAX as int,
        ;
    }
}

/// The ids a writer hands out go round the non-zero values in counting
/// order, starting from the counter (or from one at zero); so the ids of
/// fewer than `u32::MAX` + 1 successive requests are pairwise distinct, and
/// no reply can be taken for a request of the same connection it was not
/// sent for.
pub proof fn law_ids_distinct(next: u32, n: nat)
    ensures
        issue_many(next, n).0.len() == n,
        forall|i: int|
            0 <= i < n ==> #[trigger] issue_many(next, n).0[i] == ((first_id(next) - 1 + i) % (u32::MAX as int)) + 1,
        n <= u32::MAX ==> forall|i: int, j: int|
            0 <= i < j < n ==> #[trigger] issue_many(next, n).0[i] != #[trigger] issue_many(next, n).0[j],
    decreases n,
{
    let m = u32::MAX as int;
    law_request_ids_not_zero(next, n);
    if n > 0 {
        let k = (n - 1) as nat;
        law_ids_distinct(next, k);
        lemma_issue_many_step(next, k);
        lemma_ids_cycle_counter(next, k);
        let ids = issue_many(next, n).0;
        let prev = issue_many(next, k).0;
        assert forall|i: int| 0 <= i < n implies #[trigger] ids[i] == ((first_id(next) - 1 + i) % m) + 1 by {
            if i < k {
                assert(ids[i] == prev[i]);
            }
        }
        if n <= u32::MAX {
            assert forall|i: int, j: int| 0 <= i < j < n implies #[trigger] ids[i] != #[trigger] ids[j] by {
                let f = first_id(next) - 1;
                assert(f >= 0);
                assert((f + i) % m != (f + j) % m) by (nonlinear_arith)
                    requires
                        f >= 0,
                        0 <= i < j,
                        j - i < m,
                        m > 0,
                ;
            }
        }
    }
}

/// Request ids are never zero, the id that marks pushes.
pub proof fn law_request_ids_not_zero(next: u32, n: nat)
    ensures
        forall|i: int| 0 <= i < n ==> #[trigger] issue_many(next, n).0[i] != 0,
        issue_many(next, n).0.len() == n,
    decreases n,
{
    if n > 0 {
        let first = issue(next);
        law_request_ids_not_zero(first.1, (n - 1) as nat);
        let ids = issue_many(next, n).0;
        assert forall|i: int| 0 <= i < n implies #[trigger] ids[i] != 0 by {
            if i > 0 {
                assert(ids[i] == issue_many(first.1, (n - 1) as nat).0[i - 1]);
            }
        }
    }
}

} // verus!
