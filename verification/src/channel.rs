use vstd::prelude::*;

use crate::messages::FeedError;

verus! {

/// One unidirectional, ordered message queue of the bridge. Its view is the
/// sequence of messages sent and not yet received, oldest first; sending
/// appends at the tail and receiving takes the head, so per-channel FIFO
/// order is part of every operation's contract.
///
/// The two endpoint flags model which sides of the channel are still alive:
/// dropping the sending side is how teardown tells the domain thread to
/// finish, and a terminated receiving side turns a send into the
/// `ChannelClosed` condition (or a silent drop, for the best-effort event
/// channel).
pub struct Channel<T> {
    queue: Vec<T>,
    sender_open: bool,
    receiver_open: bool,
}

impl<T> View for Channel<T> {
    type V = Seq<T>;

    closed spec fn view(&self) -> Seq<T> {
        self.queue@
    }
}

impl<T> Channel<T> {
    /// Whether the sending side is still alive.
    pub closed spec fn sender_open(self) -> bool {
        self.sender_open
    }

    /// Whether the receiving side is still alive.
    pub closed spec fn receiver_open(self) -> bool {
        self.receiver_open
    }

    /// A fresh channel: empty, both endpoints alive.
    pub fn new() -> (r: Channel<T>)
        ensures
            r@ =~= Seq::<T>::empty(),
            r.sender_open(),
            r.receiver_open(),
    {
        Channel { queue: Vec::new(), sender_open: true, receiver_open: true }
    }

    /// Sends one message. Sending on a channel whose peer has terminated is
    /// the first-class `ChannelClosed` condition, reported to the caller and
    /// never swallowed; the message is then dropped.
    pub fn send(&mut self, msg: T) -> (r: Result<(), FeedError>)
        requires
            old(self).sender_open(),
        ensures
            old(self).receiver_open() ==> r == Ok::<(), FeedError>(()) && final(self)@ == old(
                self,
            )@.push(msg),
            !old(self).receiver_open() ==> r == Err::<(), FeedError>(FeedError::ChannelClosed)
                && final(self)@ == old(self)@,
            final(self).sender_open() == old(self).sender_open(),
            final(self).receiver_open() == old(self).receiver_open(),
    {
        if self.receiver_open {
            self.queue.push(msg);
            Ok(())
        } else {
            Err(FeedError::ChannelClosed)
        }
    }

    /// Best-effort send, used by the domain thread on the event channel: if
    /// the receiving side is gone the message is silently dropped, so the
    /// domain thread never blocks and never fails once the creator side has
    /// begun teardown.
    pub fn send_best_effort(&mut self, msg: T)
        requires
            old(self).sender_open(),
        ensures
            old(self).receiver_open() ==> final(self)@ == old(self)@.push(msg),
            !old(self).receiver_open() ==> final(self)@ == old(self)@,
            final(self).sender_open() == old(self).sender_open(),
            final(self).receiver_open() == old(self).receiver_open(),
    {
        if self.receiver_open {
            self.queue.push(msg);
        }
    }

    /// Receives the oldest pending message, if any. Never blocks.
    pub fn try_recv(&mut self) -> (r: Option<T>)
        requires
            old(self).receiver_open(),
        ensures
            old(self)@.len() > 0 ==> r == Some(old(self)@[0]) && final(self)@ == old(
                self,
            )@.drop_first(),
            old(self)@.len() == 0 ==> r == None::<T> && final(self)@ == old(self)@,
            final(self).sender_open() == old(self).sender_open(),
            final(self).receiver_open() == old(self).receiver_open(),
    {
        if self.queue.len() > 0 {
            let m = self.queue.remove(0);
            proof {
                assert(self.queue@ =~= old(self).queue@.drop_first());
            }
            Some(m)
        } else {
            None
        }
    }

    /// Drains every pending message, in arrival order, leaving the channel
    /// empty.
    pub fn drain(&mut self) -> (r: Vec<T>)
        requires
            old(self).receiver_open(),
        ensures
            r@ == old(self)@,
            final(self)@ =~= Seq::<T>::empty(),
            final(self).sender_open() == old(self).sender_open(),
            final(self).receiver_open() == old(self).receiver_open(),
    {
        let mut out: Vec<T> = Vec::new();
        while self.queue.len() > 0
            invariant
                out@ + self.queue@ == old(self)@,
                self.sender_open == old(self).sender_open(),
                self.receiver_open == old(self).receiver_open(),
            decreases self.queue.len(),
        {
            let m = self.queue.remove(0);
            out.push(m);
            proof {
                assert(out@ + self.queue@ =~= old(self)@);
            }
        }
        out
    }

    /// How many messages are pending.
    pub fn len(&self) -> (r: usize)
        ensures
            r == self@.len(),
    {
        self.queue.len()
    }

    /// Whether the receiving side is still alive, as the sender observes it.
    pub fn receiver_is_open(&self) -> (r: bool)
        ensures
            r == self.receiver_open(),
    {
        self.receiver_open
    }

    /// Whether the sending side is still alive, as the receiver observes it.
    /// Once this is false and the queue is drained, the receiver has seen
    /// every message that will ever arrive.
    pub fn sender_is_open(&self) -> (r: bool)
        ensures
            r == self.sender_open(),
    {
        self.sender_open
    }

    /// Drops the sending side. Pending messages stay receivable: the policy
    /// is "drain current, then stop".
    pub fn close_sender(&mut self)
        ensures
            final(self)@ == old(self)@,
            !final(self).sender_open(),
            final(self).receiver_open() == old(self).receiver_open(),
    {
        self.sender_open = false;
    }

    /// Drops the receiving side. Pending messages are never delivered, and
    /// later sends report `ChannelClosed`.
    pub fn close_receiver(&mut self)
        ensures
            final(self)@ == old(self)@,
            !final(self).receiver_open(),
            final(self).sender_open() == old(self).sender_open(),
    {
        self.receiver_open = false;
    }
}

} // verus!
