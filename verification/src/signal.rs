use vstd::prelude::*;

use vstd::seq_lib::lemma_seq_contains_after_push;

use crate::CallbackToken;
use crate::Handle;
use crate::messages::UIEvent;
use crate::tweets::Tweet;

verus! {

/// The domain-thread side of the wakeup signal. Firing it is callable from
/// the domain thread, safe cross-thread and never blocking: it schedules the
/// handler's `wakeup` to run on the host main loop's own thread at its next
/// opportunity. The flag is boolean on purpose: multiple firings before the
/// wakeup runs coalesce into one pending invocation.
pub struct WakeupEmitter {
    pending: bool,
}

impl WakeupEmitter {
    /// Whether a wakeup invocation is pending on the host loop.
    pub closed spec fn pending(self) -> bool {
        self.pending
    }

    /// The emitter state after one firing: pending, whatever it was before.
    pub closed spec fn fired(self) -> WakeupEmitter {
        WakeupEmitter { pending: true }
    }

    /// A fresh emitter with no wakeup pending.
    pub fn new() -> (r: WakeupEmitter)
        ensures
            !r.pending(),
    {
        WakeupEmitter { pending: false }
    }

    /// Requests that the host loop run the wakeup handler.
    pub fn fire(&mut self)
        ensures
            *final(self) == old(self).fired(),
            final(self).pending(),
    {
        self.pending = true;
    }

    /// Whether a wakeup invocation is pending.
    pub fn is_pending(&self) -> (r: bool)
        ensures
            r == self.pending(),
    {
        self.pending
    }

    /// The host loop's check-and-reset: reports whether a wakeup was pending
    /// and clears the flag, so the handler runs once for any number of
    /// firings since the last run.
    pub fn take(&mut self) -> (r: bool)
        ensures
            r == old(self).pending(),
            !final(self).pending(),
    {
        let r = self.pending;
        self.pending = false;
        r
    }
}

/// The emitter state after `k` successive firings.
pub open spec fn fire_n(e: WakeupEmitter, k: nat) -> WakeupEmitter
    decreases k,
{
    if k == 0 {
        e
    } else {
        fire_n(e, (k - 1) as nat).fired()
    }
}

/// Wakeup coalescing: firing the emitter any positive number of times leaves
/// it in exactly the state one firing leaves it in, so however many events
/// the domain queues before the host loop gets around to the handler, they
/// yield one pending `wakeup` invocation, which then drains them all.
pub proof fn lemma_wakeup_coalescing(e: WakeupEmitter, k: nat)
    requires
        k >= 1,
    ensures
        fire_n(e, k) == fire_n(e, 1),
        fire_n(e, k).pending(),
    decreases k,
{
    if k > 1 {
        lemma_wakeup_coalescing(e, (k - 1) as nat);
    }
}

/// The handles a drained batch destroys, added to an already-known closed
/// set: every `StreamClosed` marker in the batch, in order.
pub open spec fn closed_after(closed: Set<Handle>, evts: Seq<UIEvent>) -> Set<Handle>
    decreases evts.len(),
{
    if evts.len() == 0 {
        closed
    } else {
        let step = match evts[0] {
            UIEvent::StreamClosed(h) => closed.insert(h),
            _ => closed,
        };
        closed_after(step, evts.drop_first())
    }
}

/// The tweets a drain hands to the callback, each with its stream's handle,
/// in arrival order: every `TweetArrived` whose handle is not in `fc`, the
/// closed set after the whole batch — so a destruction anywhere in the batch
/// withholds even a tweet queued before it was processed.
pub open spec fn delivered(fc: Set<Handle>, evts: Seq<UIEvent>) -> Seq<(Handle, Tweet)>
    decreases evts.len(),
{
    if evts.len() == 0 {
        Seq::empty()
    } else {
        let rest = delivered(fc, evts.drop_first());
        match evts[0] {
            UIEvent::TweetArrived(h, t) => if !fc.contains(h) {
                seq![(h, t)] + rest
            } else {
                rest
            },
            UIEvent::StreamClosed(_) => rest,
        }
    }
}

/// What one drain of the event channel delivers, given the closed handles
/// known beforehand and the drained batch.
pub open spec fn deliveries(closed: Set<Handle>, evts: Seq<UIEvent>) -> Seq<(Handle, Tweet)> {
    delivered(closed_after(closed, evts), evts)
}

/// The creator-facing side of the bridge: the tweet-callback slot and the
/// record of destroyed handles the drain has seen. The callback slot is a
/// single-writer/single-reader handoff cell: written only from the creator
/// thread (`set_tweet_callback`), read only inside `wakeup` on the host-loop
/// thread, and never read from the domain thread.
pub struct UISignalHandler {
    callback: Option<CallbackToken>,
    closed: Vec<Handle>,
}

impl UISignalHandler {
    /// The currently registered callback, if any. The minimal design has one
    /// active callback per context; multiplexing by handle on the UI side is
    /// the caller's responsibility.
    pub closed spec fn callback(self) -> Option<CallbackToken> {
        self.callback
    }

    /// The handles whose destruction the drain has recorded.
    pub closed spec fn closed_set(self) -> Set<Handle> {
        Set::new(|h: Handle| self.closed@.contains(h))
    }

    /// A fresh handler: no callback registered, no destruction seen.
    pub fn new() -> (r: UISignalHandler)
        ensures
            r.callback() is None,
            r.closed_set() =~= Set::<Handle>::empty(),
    {
        UISignalHandler { callback: None, closed: Vec::new() }
    }

    /// Installs or replaces the callback invoked for delivered tweets.
    pub fn set_tweet_callback(&mut self, callback: CallbackToken)
        ensures
            final(self).callback() == Some(callback),
            final(self).closed_set() == old(self).closed_set(),
    {
        self.callback = Some(callback);
    }

    /// Whether the drain has recorded the handle as destroyed.
    pub fn is_closed(&self, h: Handle) -> (r: bool)
        ensures
            r == self.closed_set().contains(h),
    {
        let mut i: usize = 0;
        let mut found = false;
        while i < self.closed.len()
            invariant
                i <= self.closed@.len(),
                found == self.closed@.subrange(0, i as int).contains(h),
            decreases self.closed@.len() - i,
        {
            proof {
                broadcast use lemma_seq_contains_after_push;

                assert(self.closed@.subrange(0, i + 1) =~= self.closed@.subrange(
                    0,
                    i as int,
                ).push(self.closed@[i as int]));
            }
            if self.closed[i] == h {
                found = true;
            }
            i = i + 1;
        }
        proof {
            assert(self.closed@.subrange(0, self.closed@.len() as int) =~= self.closed@);
        }
        found
    }

    /// Runs on the host main loop's own thread when the wakeup signal fires.
    /// Takes the entire batch just drained from the event channel, in
    /// arrival order; records every destruction in it; and returns the
    /// tweets to pass to the currently registered callback, each with its
    /// stream's handle, in arrival order. With no callback registered the
    /// batch is still consumed and its tweets are discarded.
    pub fn wakeup(&mut self, batch: Vec<UIEvent>) -> (r: Vec<(Handle, Tweet)>)
        ensures
            final(self).callback() == old(self).callback(),
            final(self).closed_set() == closed_after(old(self).closed_set(), batch@),
            old(self).callback() is Some ==> r@ == deliveries(old(self).closed_set(), batch@),
            old(self).callback() is None ==> r@ == Seq::<(Handle, Tweet)>::empty(),
    {
        let ghost whole = batch@;
        proof {
            assert(batch@.subrange(0, batch@.len() as int) =~= batch@);
        }
        let mut i: usize = 0;
        while i < batch.len()
            invariant
                i <= batch@.len(),
                batch@ == whole,
                self.callback == old(self).callback,
                closed_after(self.closed_set(), batch@.subrange(i as int, batch@.len() as int))
                    == closed_after(old(self).closed_set(), whole),
            decreases batch@.len() - i,
        {
            let ghost pre = self.closed_set();
            let ghost tail = batch@.subrange(i as int, batch@.len() as int);
            proof {
                assert(tail.drop_first() =~= batch@.subrange(i + 1, batch@.len() as int));
                assert(tail[0] == batch@[i as int]);
            }
            match &batch[i] {
                UIEvent::StreamClosed(h) => {
                    let hc = *h;
                    self.closed.push(hc);
                    proof {
                        broadcast use lemma_seq_contains_after_push;

                        assert(self.closed_set() =~= pre.insert(hc));
                        assert(closed_after(pre, tail) == closed_after(
                            self.closed_set(),
                            tail.drop_first(),
                        ));
                    }
                },
                UIEvent::TweetArrived(_, _) => {
                    proof {
                        assert(closed_after(pre, tail) == closed_after(
                            self.closed_set(),
                            tail.drop_first(),
                        ));
                    }
                },
            }
            i = i + 1;
        }
        proof {
            assert(batch@.subrange(batch@.len() as int, batch@.len() as int)
                =~= Seq::<UIEvent>::empty());
            assert(self.closed_set() == closed_after(old(self).closed_set(), whole));
        }
        let ghost fc = self.closed_set();
        let has_callback = self.callback.is_some();
        let mut rest = batch;
        let mut out: Vec<(Handle, Tweet)> = Vec::new();
        while rest.len() > 0
            invariant
                self.callback == old(self).callback,
                self.closed_set() == fc,
                fc == closed_after(old(self).closed_set(), whole),
                has_callback == (old(self).callback() is Some),
                has_callback ==> out@ + delivered(fc, rest@) == delivered(fc, whole),
                !has_callback ==> out@ == Seq::<(Handle, Tweet)>::empty(),
            decreases rest@.len(),
        {
            let ghost pre_rest = rest@;
            let evt = rest.remove(0);
            proof {
                assert(rest@ =~= pre_rest.drop_first());
            }
            match evt {
                UIEvent::TweetArrived(h, t) => {
                    if has_callback && !self.is_closed(h) {
                        let ghost pre_out = out@;
                        out.push((h, t));
                        proof {
                            assert(delivered(fc, pre_rest) == seq![(h, t)] + delivered(fc, rest@));
                            assert(out@ + delivered(fc, rest@) =~= pre_out + (seq![(h, t)]
                                + delivered(fc, rest@)));
                        }
                    } else {
                        proof {
                            if has_callback {
                                assert(fc.contains(h));
                                assert(delivered(fc, pre_rest) == delivered(fc, rest@));
                            }
                        }
                    }
                },
                UIEvent::StreamClosed(_) => {
                    proof {
                        if has_callback {
                            assert(delivered(fc, pre_rest) == delivered(fc, rest@));
                        }
                    }
                },
            }
        }
        proof {
            assert(delivered(fc, rest@) =~= Seq::<(Handle, Tweet)>::empty());
            if has_callback {
                assert(out@ =~= out@ + delivered(fc, rest@));
            }
        }
        out
    }
}

/// Destroy wins: if the batch a wakeup drains records the destruction of
/// handle `h` — a `StreamClosed(h)` anywhere in it — or `h` was already
/// known destroyed, then that wakeup delivers no tweet for `h` to the
/// callback, even a tweet that was queued before the destroy was processed.
pub proof fn lemma_destroy_wins(closed: Set<Handle>, batch: Seq<UIEvent>, h: Handle)
    requires
        closed.contains(h) || batch.contains(UIEvent::StreamClosed(h)),
    ensures
        forall|k: int|
            0 <= k < deliveries(closed, batch).len() ==> (#[trigger] deliveries(
                closed,
                batch,
            )[k]).0 != h,
{
    lemma_closed_after_contains(closed, batch, h);
    lemma_delivered_avoids(closed_after(closed, batch), batch, h);
}

/// A handle already in the closed set stays in it through any batch.
proof fn lemma_closed_after_monotone(closed: Set<Handle>, evts: Seq<UIEvent>, h: Handle)
    requires
        closed.contains(h),
    ensures
        closed_after(closed, evts).contains(h),
    decreases evts.len(),
{
    if evts.len() > 0 {
        let step = match evts[0] {
            UIEvent::StreamClosed(h2) => closed.insert(h2),
            _ => closed,
        };
        lemma_closed_after_monotone(step, evts.drop_first(), h);
    }
}

/// A `StreamClosed(h)` anywhere in the batch puts `h` into the closed set
/// after the batch.
proof fn lemma_closed_after_contains(closed: Set<Handle>, evts: Seq<UIEvent>, h: Handle)
    requires
        closed.contains(h) || evts.contains(UIEvent::StreamClosed(h)),
    ensures
        closed_after(closed, evts).contains(h),
    decreases evts.len(),
{
    if closed.contains(h) {
        lemma_closed_after_monotone(closed, evts, h);
    } else {
        let i = choose|i: int| 0 <= i < evts.len() && evts[i] == UIEvent::StreamClosed(h);
        let step = match evts[0] {
            UIEvent::StreamClosed(h2) => closed.insert(h2),
            _ => closed,
        };
        if i == 0 {
            lemma_closed_after_monotone(step, evts.drop_first(), h);
        } else {
            assert(evts.drop_first()[i - 1] == UIEvent::StreamClosed(h));
            assert(evts.drop_first().contains(UIEvent::StreamClosed(h)));
            lemma_closed_after_contains(step, evts.drop_first(), h);
        }
    }
}

/// No tweet for a handle in the closed set is ever among the delivered ones.
proof fn lemma_delivered_avoids(fc: Set<Handle>, evts: Seq<UIEvent>, h: Handle)
    requires
        fc.contains(h),
    ensures
        forall|k: int|
            0 <= k < delivered(fc, evts).len() ==> (#[trigger] delivered(fc, evts)[k]).0 != h,
    decreases evts.len(),
{
    if evts.len() > 0 {
        lemma_delivered_avoids(fc, evts.drop_first(), h);
        let rest = delivered(fc, evts.drop_first());
        match evts[0] {
            UIEvent::TweetArrived(h0, t) => {
                if !fc.contains(h0) {
                    assert forall|k: int|
                        0 <= k < delivered(fc, evts).len() implies (#[trigger] delivered(
                        fc,
                        evts,
                    )[k]).0 != h by {
                        if k == 0 {
                            assert(delivered(fc, evts)[0] == (h0, t));
                        } else {
                            assert(delivered(fc, evts)[k] == rest[k - 1]);
                        }
                    }
                }
            },
            UIEvent::StreamClosed(_) => {
            },
        }
    }
}

} // verus!
