//! The broadcast hub: a process-wide bus that distributes every newly
//! persisted response to all live subscribers. The hub retains the most
//! recent `capacity` messages; a subscriber that falls further behind
//! than that is lagged forward to the oldest retained message and told
//! how much it missed, rather than failing.

use vstd::prelude::*;

use crate::response::Response;

verus! {

/// The hub's state. Messages are numbered from 0 in publish order;
/// positions `base..base + buffer.len()` are retained in `buffer`, and
/// everything before `base` has been dropped to honour the capacity
/// bound.
pub struct Hub {
    pub buffer: Vec<Response>,
    pub base: usize,
    pub capacity: usize,
    pub closed: bool,
}

/// A subscriber's handle: the number of the next message it will
/// receive.
pub struct Receiver {
    pub next: usize,
}

/// What one receive attempt yields.
pub enum RecvOutcome<'a> {
    /// The next message, in publish order.
    Message(&'a Response),
    /// The subscriber fell behind and this many messages were dropped
    /// for it; receiving continues with the oldest retained message.
    Lagged(usize),
    /// Nothing is pending; the subscriber would block.
    Empty,
    /// The hub was shut down and everything pending has been drained.
    Closed,
}

/// Ghost-level value of a receive attempt, used to state the hub's
/// behaviour as a function of its state.
pub enum RecvV {
    Message(Response),
    Lagged(int),
    Empty,
    Closed,
}

impl Hub {
    /// How many messages have ever been published.
    pub open spec fn total(&self) -> int {
        self.base + self.buffer@.len()
    }

    /// The message published at position `pos`, for retained positions.
    pub open spec fn msg_at(&self, pos: int) -> Response
        recommends
            self.base <= pos < self.total(),
    {
        self.buffer@[pos - self.base]
    }

    /// Well-formedness: the buffer honours a positive capacity and the
    /// total message count fits the position type.
    pub open spec fn wf(&self) -> bool {
        &&& 1 <= self.capacity
        &&& self.buffer@.len() <= self.capacity
        &&& self.base + self.buffer@.len() <= usize::MAX
    }

    /// A fresh hub, open and empty.
    pub fn new(capacity: usize) -> (h: Hub)
        requires
            1 <= capacity,
        ensures
            h.wf(),
            h.total() == 0,
            h.base == 0,
            h.capacity == capacity,
            !h.closed,
    {
        Hub { buffer: Vec::new(), base: 0, capacity, closed: false }
    }

    /// A new subscriber observes only messages published after this
    /// call: it starts at the current end of the stream, with no replay
    /// of history.
    pub fn subscribe(&self) -> (rx: Receiver)
        requires
            self.wf(),
        ensures
            rx.next == self.total(),
    {
        Receiver { next: self.base + self.buffer.len() }
    }

    /// Publish a message to every current subscriber's queue. When the
    /// buffer is full the oldest retained message is dropped, which
    /// will lag the subscribers still behind it.
    pub fn publish(&mut self, m: Response)
        requires
            old(self).wf(),
            old(self).total() < usize::MAX,
        ensures
            publish_post(*old(self), *final(self), m),
    {
        if self.buffer.len() == self.capacity {
            let _ = self.buffer.remove(0);
            self.base = self.base + 1;
        }
        self.buffer.push(m);
    }

    /// Shut the hub down; subscribers that drain what is retained then
    /// see `Closed`.
    pub fn close(&mut self)
        ensures
            final(self).closed,
            final(self).buffer == old(self).buffer,
            final(self).base == old(self).base,
            final(self).capacity == old(self).capacity,
    {
        self.closed = true;
    }

    /// One receive attempt for `rx`: exactly [`recv_view`] of the hub's
    /// state and the subscriber's position, with the position advancing
    /// as [`next_after`] says.
    pub fn recv<'a>(&'a self, rx: &mut Receiver) -> (r: RecvOutcome<'a>)
        requires
            self.wf(),
            old(rx).next <= self.total(),
        ensures
            final(rx).next == next_after(*self, old(rx).next as int),
            final(rx).next <= self.total(),
            match r {
                RecvOutcome::Message(m) => recv_view(*self, old(rx).next as int) == RecvV::Message(
                    *m,
                ),
                RecvOutcome::Lagged(n) => recv_view(*self, old(rx).next as int) == RecvV::Lagged(
                    n as int,
                ),
                RecvOutcome::Empty => recv_view(*self, old(rx).next as int) == RecvV::Empty,
                RecvOutcome::Closed => recv_view(*self, old(rx).next as int) == RecvV::Closed,
            },
    {
        if rx.next < self.base {
            let n: usize = self.base - rx.next;
            rx.next = self.base;
            RecvOutcome::Lagged(n)
        } else if rx.next == self.base + self.buffer.len() {
            if self.closed {
                RecvOutcome::Closed
            } else {
                RecvOutcome::Empty
            }
        } else {
            let idx: usize = rx.next - self.base;
            let m = &self.buffer[idx];
            rx.next = rx.next + 1;
            RecvOutcome::Message(m)
        }
    }
}

/// How one publish changes the hub: one more message, the new one at
/// the end, the retained prefix unchanged, and the base advancing only
/// when the capacity bound forces the oldest message out.
pub open spec fn publish_post(pre: Hub, post: Hub, m: Response) -> bool {
    &&& post.wf()
    &&& post.capacity == pre.capacity
    &&& post.closed == pre.closed
    &&& post.total() == pre.total() + 1
    &&& post.base == if pre.buffer@.len() < pre.capacity {
        pre.base as int
    } else {
        pre.base + 1
    }
    &&& post.msg_at(pre.total()) == m
    &&& forall|p: int| post.base <= p < pre.total() ==> post.msg_at(p) == pre.msg_at(p)
}

/// What a receive attempt at position `pos` yields: a lag signal when
/// the position fell out of the retained window, the next retained
/// message otherwise, and `Empty` or `Closed` at the end of the stream.
pub open spec fn recv_view(h: Hub, pos: int) -> RecvV
    recommends
        pos <= h.total(),
{
    if pos < h.base {
        RecvV::Lagged(h.base - pos)
    } else if pos == h.total() {
        if h.closed {
            RecvV::Closed
        } else {
            RecvV::Empty
        }
    } else {
        RecvV::Message(h.msg_at(pos))
    }
}

/// The subscriber's position after one receive attempt at `pos`: a
/// lagged subscriber jumps to the oldest retained message, an empty or
/// closed stream leaves it in place, and a delivery advances it by one.
pub open spec fn next_after(h: Hub, pos: int) -> int
    recommends
        pos <= h.total(),
{
    if pos < h.base {
        h.base as int
    } else if pos == h.total() {
        pos
    } else {
        pos + 1
    }
}

/// Publishing while a subscriber is fully caught up delivers exactly
/// the published message to it next: no subscriber that is up to date
/// ever misses a message.
pub proof fn lemma_publish_delivers(pre: Hub, post: Hub, m: Response, pos: int)
    requires
        pre.wf(),
        publish_post(pre, post, m),
        pos == pre.total(),
    ensures
        recv_view(post, pos) == RecvV::Message(m),
        next_after(post, pos) == post.total(),
{
}

/// Deliveries reach a subscriber in publish order: the subscriber's
/// position never moves backwards, a delivery hands over exactly the
/// message published at the current position and advances past it, and
/// a lag signal only skips forward over dropped messages.
pub proof fn lemma_delivery_in_publish_order(h: Hub, pos: int)
    requires
        h.wf(),
        0 <= pos <= h.total(),
    ensures
        next_after(h, pos) >= pos,
        recv_view(h, pos) matches RecvV::Message(m) ==> m == h.msg_at(pos) && next_after(h, pos)
            == pos + 1,
{
}

/// A subscriber that fell out of the retained window is told how many
/// messages it lost and resumes at the oldest retained message; when
/// anything is still retained, the very next receive attempt delivers
/// a message. Lag never terminates a subscription and never blocks it.
pub proof fn lemma_lag_then_resume(h: Hub, pos: int)
    requires
        h.wf(),
        0 <= pos < h.base,
    ensures
        recv_view(h, pos) == RecvV::Lagged(h.base - pos),
        next_after(h, pos) == h.base,
        h.base < h.total() ==> recv_view(h, h.base as int) == RecvV::Message(
            h.msg_at(h.base as int),
        ),
{
}

} // verus!
