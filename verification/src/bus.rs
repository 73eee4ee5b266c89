//! The envelope bus: a bounded window over everything that was published,
//! read by any number of subscribers, each through a cursor of its own.
//!
//! A publisher never waits. When the window is full the oldest envelope
//! leaves it, and a subscriber whose cursor pointed at an envelope that has
//! left is told how many it missed and continues with the oldest one that is
//! still retained.

use std::collections::VecDeque;
use vstd::prelude::*;
use crate::envelope::{Envelope, EnvelopeView};

verus! {

/// What one read of a subscription gives.
#[derive(Debug)]
pub enum Recv {
    /// The next envelope in publish order.
    Envelope(Envelope),
    /// Everything published so far has been read, and the bus is open.
    Empty,
    /// That many envelopes left the window before they were read.
    Lagged(u64),
    /// Everything published has been read, and the bus is closed.
    Closed,
}

/// The mathematical value of a `Recv`.
pub enum RecvView {
    Envelope(EnvelopeView),
    Empty,
    Lagged(nat),
    Closed,
}

impl View for Recv {
    type V = RecvView;

    open spec fn view(&self) -> RecvView {
        match self {
            Recv::Envelope(e) => RecvView::Envelope(e@),
            Recv::Empty => RecvView::Empty,
            Recv::Lagged(n) => RecvView::Lagged(*n as nat),
            Recv::Closed => RecvView::Closed,
        }
    }
}

/// The mathematical value of a bus.
pub struct BusView {
    /// Every envelope ever published, in publish order.
    pub log: Seq<EnvelopeView>,
    /// How many of them have left the window; the window is `log` from here on.
    pub head: nat,
    /// The most envelopes that the window holds.
    pub capacity: nat,
    /// Whether the bus has been closed.
    pub closed: bool,
}

impl BusView {
    /// The window lies inside the log and holds at most `capacity` envelopes.
    pub open spec fn wf(self) -> bool {
        &&& self.capacity > 0
        &&& self.head <= self.log.len()
        &&& self.log.len() - self.head <= self.capacity
    }
}

/// What a publish does to a bus: nothing once it is closed; otherwise the
/// envelope joins the log, and the window slides so that it holds at most
/// `capacity` envelopes.
pub open spec fn publish_spec(b: BusView, e: EnvelopeView) -> BusView {
    if b.closed {
        b
    } else {
        BusView {
            log: b.log.push(e),
            head: if b.log.len() + 1 - b.head > b.capacity {
                (b.log.len() + 1 - b.capacity) as nat
            } else {
                b.head
            },
            capacity: b.capacity,
            closed: b.closed,
        }
    }
}

/// What a read at `cursor` gives, and where the cursor stands afterwards.
pub open spec fn recv_spec(b: BusView, cursor: nat) -> (RecvView, nat) {
    if cursor < b.head {
        (RecvView::Lagged((b.head - cursor) as nat), b.head)
    } else if cursor < b.log.len() {
        (RecvView::Envelope(b.log[cursor as int]), cursor + 1)
    } else if b.closed {
        (RecvView::Closed, cursor)
    } else {
        (RecvView::Empty, cursor)
    }
}

/// The bus itself.
pub struct Bus {
    capacity: usize,
    ring: VecDeque<Envelope>,
    head: u64,
    closed: bool,
    log: Ghost<Seq<EnvelopeView>>,
}

/// One subscriber's cursor: the position in the log of the envelope that it
/// reads next.
#[derive(Debug)]
pub struct Subscription {
    next: u64,
}

impl Subscription {
    /// The position in the log of the envelope read next.
    pub closed spec fn cursor(&self) -> nat {
        self.next as nat
    }

    /// The position in the log of the envelope read next.
    pub fn position(&self) -> (p: u64)
        ensures
            p as nat == self.cursor(),
    {
        self.next
    }
}

impl View for Bus {
    type V = BusView;

    closed spec fn view(&self) -> BusView {
        BusView {
            log: self.log@,
            head: self.head as nat,
            capacity: self.capacity as nat,
            closed: self.closed,
        }
    }
}

impl Bus {
    /// The invariant of a bus: the window is the tail of the log, and holds
    /// at most `capacity` envelopes.
    pub closed spec fn wf(&self) -> bool {
        &&& self.capacity > 0
        &&& self.ring@.len() <= self.capacity
        &&& self.head + self.ring@.len() == self.log@.len()
        &&& self.log@.len() <= u64::MAX
        &&& forall|i: int|
            0 <= i < self.ring@.len() ==> (#[trigger] self.ring@[i])@ == self.log@[self.head + i]
    }

    /// A well-formed bus keeps its window within its capacity and inside the log.
    pub proof fn lemma_wf_bounds(&self)
        requires
            self.wf(),
        ensures
            self@.wf(),
            self@.log.len() <= u64::MAX,
    {
    }

    /// An open bus on which nothing has been published. A capacity of 0 is
    /// taken as 1: the window always has room for the newest envelope.
    pub fn new(capacity: usize) -> (bus: Bus)
        ensures
            bus.wf(),
            bus@.log == Seq::<EnvelopeView>::empty(),
            bus@.head == 0,
            bus@.capacity == (if capacity == 0 { 1 } else { capacity as nat }),
            !bus@.closed,
    {
        let cap: usize = if capacity == 0 { 1 } else { capacity };
        Bus { capacity: cap, ring: VecDeque::new(), head: 0, closed: false, log: Ghost(Seq::empty()) }
    }

    /// How many envelopes have been published since the bus was made.
    pub fn published(&self) -> (n: u64)
        requires
            self.wf(),
        ensures
            n as nat == self@.log.len(),
    {
        self.head + (self.ring.len() as u64)
    }

    /// How many envelopes the window holds now.
    pub fn retained(&self) -> (n: usize)
        requires
            self.wf(),
        ensures
            n as nat == self@.log.len() - self@.head,
    {
        self.ring.len()
    }

    /// The most envelopes that the window holds.
    pub fn capacity(&self) -> (n: usize)
        ensures
            n as nat == self@.capacity,
    {
        self.capacity
    }

    /// Whether the bus has been closed.
    pub fn is_closed(&self) -> (c: bool)
        ensures
            c == self@.closed,
    {
        self.closed
    }

    /// Publishes an envelope. It never waits and never fails: where the
    /// window is full, the oldest envelope leaves it.
    pub fn publish(&mut self, env: Envelope)
        requires
            old(self).wf(),
            old(self)@.log.len() < u64::MAX,
        ensures
            final(self).wf(),
            final(self)@ == publish_spec(old(self)@, env@),
    {
        if self.closed {
            return ;
        }
        if self.ring.len() >= self.capacity {
            let _ = self.ring.pop_front();
            self.head = self.head + 1;
        }
        self.ring.push_back(env);
        self.log = Ghost(self.log@.push(env@));
    }

    /// A new cursor that starts at "now": it will read what is published
    /// from here on, and nothing that was published before.
    pub fn subscribe(&self) -> (sub: Subscription)
        requires
            self.wf(),
        ensures
            sub.cursor() == self@.log.len(),
    {
        Subscription { next: self.head + (self.ring.len() as u64) }
    }

    /// Closes the bus. What was published stays readable; after it, every
    /// read gives `Closed`, and later publishes are dropped.
    pub fn close(&mut self)
        requires
            old(self).wf(),
        ensures
            final(self).wf(),
            final(self)@ == (BusView { closed: true, ..old(self)@ }),
    {
        self.closed = true;
    }

    /// Reads the next envelope for `sub`, without waiting.
    pub fn try_recv(&self, sub: &mut Subscription) -> (r: Recv)
        requires
            self.wf(),
            old(sub).cursor() <= self@.log.len(),
        ensures
            (r@, final(sub).cursor()) == recv_spec(self@, old(sub).cursor()),
            final(sub).cursor() <= self@.log.len(),
    {
        if sub.next < self.head {
            let missed: u64 = self.head - sub.next;
            sub.next = self.head;
            Recv::Lagged(missed)
        } else if sub.next - self.head < self.ring.len() as u64 {
            let i: usize = (sub.next - self.head) as usize;
            let env = self.ring[i].duplicate();
            sub.next = sub.next + 1;
            Recv::Envelope(env)
        } else if self.closed {
            Recv::Closed
        } else {
            Recv::Empty
        }
    }
}

/// One step of a subscriber's history: somebody publishes, or the
/// subscriber reads.
pub enum BusStep {
    Publish(EnvelopeView),
    Receive,
}

/// Where a history leaves the bus and the subscriber, and what the
/// subscriber's reads gave, in order.
pub struct Trace {
    pub bus: BusView,
    pub cursor: nat,
    pub seen: Seq<RecvView>,
}

/// The bus `b` and a subscriber at `cursor`, after `steps`.
pub open spec fn run(b: BusView, cursor: nat, steps: Seq<BusStep>) -> Trace
    decreases steps.len(),
{
    if steps.len() == 0 {
        Trace { bus: b, cursor, seen: Seq::empty() }
    } else {
        let prev = run(b, cursor, steps.drop_last());
        match steps.last() {
            BusStep::Publish(e) => Trace {
                bus: publish_spec(prev.bus, e),
                cursor: prev.cursor,
                seen: prev.seen,
            },
            BusStep::Receive => Trace {
                bus: prev.bus,
                cursor: recv_spec(prev.bus, prev.cursor).1,
                seen: prev.seen.push(recv_spec(prev.bus, prev.cursor).0),
            },
        }
    }
}

/// The envelopes among what a subscriber's reads gave, in order.
pub open spec fn envelopes_of(seen: Seq<RecvView>) -> Seq<EnvelopeView>
    decreases seen.len(),
{
    if seen.len() == 0 {
        Seq::empty()
    } else {
        match seen.last() {
            RecvView::Envelope(e) => envelopes_of(seen.drop_last()).push(e),
            _ => envelopes_of(seen.drop_last()),
        }
    }
}

/// No read of the subscriber reported a gap.
pub open spec fn never_lagged(seen: Seq<RecvView>) -> bool {
    forall|i: int| 0 <= i < seen.len() ==> !(#[trigger] seen[i] is Lagged)
}

/// The bus after each envelope of `envs` has been published, in order.
pub open spec fn publish_all(b: BusView, envs: Seq<EnvelopeView>) -> BusView
    decreases envs.len(),
{
    if envs.len() == 0 {
        b
    } else {
        publish_spec(publish_all(b, envs.drop_last()), envs.last())
    }
}

/// A publish keeps the bus well-formed, keeps what was published before, and
/// never moves the window backwards.
pub proof fn lemma_publish_keeps_wf(b: BusView, e: EnvelopeView)
    requires
        b.wf(),
    ensures
        publish_spec(b, e).wf(),
        publish_spec(b, e).head >= b.head,
        publish_spec(b, e).capacity == b.capacity,
        publish_spec(b, e).closed == b.closed,
        b.log.is_prefix_of(publish_spec(b, e).log),
{
}

/// Order preservation. Whatever is published while a subscriber reads, as
/// long as none of its reads reports a gap, the envelopes that it has read
/// are exactly the stretch of the log between the place where it started
/// and the place where it stands: every envelope published in between, once
/// each, in publish order.
pub proof fn lemma_order_preserved(b: BusView, cursor: nat, steps: Seq<BusStep>)
    requires
        b.wf(),
        cursor <= b.log.len(),
        never_lagged(run(b, cursor, steps).seen),
    ensures
        run(b, cursor, steps).bus.wf(),
        b.log.is_prefix_of(run(b, cursor, steps).bus.log),
        cursor <= run(b, cursor, steps).cursor <= run(b, cursor, steps).bus.log.len(),
        envelopes_of(run(b, cursor, steps).seen) == run(b, cursor, steps).bus.log.subrange(
            cursor as int,
            run(b, cursor, steps).cursor as int,
        ),
    decreases steps.len(),
{
    let t = run(b, cursor, steps);
    if steps.len() == 0 {
        assert(t.bus.log.subrange(cursor as int, cursor as int) =~= Seq::empty());
    } else {
        let prev = run(b, cursor, steps.drop_last());
        assert(never_lagged(prev.seen)) by {
            match steps.last() {
                BusStep::Publish(e) => {},
                BusStep::Receive => {
                    assert forall|i: int| 0 <= i < prev.seen.len() implies !(
                    #[trigger] prev.seen[i] is Lagged) by {
                        assert(t.seen[i] == prev.seen[i]);
                    }
                },
            }
        }
        lemma_order_preserved(b, cursor, steps.drop_last());
        match steps.last() {
            BusStep::Publish(e) => {
                lemma_publish_keeps_wf(prev.bus, e);
                assert(t.bus.log.subrange(cursor as int, t.cursor as int)
                    =~= prev.bus.log.subrange(cursor as int, prev.cursor as int));
            },
            BusStep::Receive => {
                let r = recv_spec(prev.bus, prev.cursor).0;
                assert(t.seen.last() == r);
                assert(t.seen.drop_last() =~= prev.seen);
                assert(!(t.seen[t.seen.len() - 1] is Lagged));
                if prev.cursor < prev.bus.log.len() {
                    assert(t.bus.log.subrange(cursor as int, t.cursor as int)
                        =~= prev.bus.log.subrange(cursor as int, prev.cursor as int).push(
                        prev.bus.log[prev.cursor as int],
                    ));
                }
            },
        }
    }
}

/// A subscriber that reads until the bus has nothing more for it, and never
/// met a gap, has seen everything that was published since it subscribed.
pub proof fn lemma_drained_subscriber_saw_everything(
    b: BusView,
    cursor: nat,
    steps: Seq<BusStep>,
)
    requires
        b.wf(),
        cursor == b.log.len(),
        never_lagged(run(b, cursor, steps).seen),
        run(b, cursor, steps).cursor == run(b, cursor, steps).bus.log.len(),
    ensures
        b.log + envelopes_of(run(b, cursor, steps).seen) == run(b, cursor, steps).bus.log,
{
    lemma_order_preserved(b, cursor, steps);
    let t = run(b, cursor, steps);
    assert(b.log + t.bus.log.subrange(cursor as int, t.cursor as int) =~= t.bus.log);
}

/// Publishing on an open bus appends to the log and leaves the window as
/// full as it can be.
pub proof fn lemma_publish_all(b: BusView, envs: Seq<EnvelopeView>)
    requires
        b.wf(),
        !b.closed,
    ensures
        publish_all(b, envs).wf(),
        !publish_all(b, envs).closed,
        publish_all(b, envs).capacity == b.capacity,
        publish_all(b, envs).log == b.log + envs,
        publish_all(b, envs).head >= b.head,
        publish_all(b, envs).head + b.capacity >= b.log.len() + envs.len(),
        envs.len() > 0 ==> publish_all(b, envs).head < publish_all(b, envs).log.len(),
    decreases envs.len(),
{
    if envs.len() == 0 {
        assert(b.log + envs =~= b.log);
    } else {
        lemma_publish_all(b, envs.drop_last());
        let mid = publish_all(b, envs.drop_last());
        assert(mid.log.push(envs.last()) =~= b.log + envs);
    }
}

/// Lag safety. However many envelopes are published while a subscriber
/// does not read, every one of them is accepted. Once more have been
/// published than the window holds, the subscriber's next read reports
/// how many it missed, and the read after that gives the oldest envelope
/// that is still in the window.
pub proof fn lemma_lag_then_resume(b: BusView, cursor: nat, envs: Seq<EnvelopeView>)
    requires
        b.wf(),
        !b.closed,
        cursor <= b.log.len(),
        envs.len() > b.capacity,
    ensures
        ({
            let after = publish_all(b, envs);
            let first = recv_spec(after, cursor);
            let second = recv_spec(after, first.1);
            &&& after.log == b.log + envs
            &&& after.head > cursor
            &&& first == (RecvView::Lagged((after.head - cursor) as nat), after.head)
            &&& second == (RecvView::Envelope(after.log[after.head as int]), after.head + 1)
        }),
{
    lemma_publish_all(b, envs);
}

} // verus!
