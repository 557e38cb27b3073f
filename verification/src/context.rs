use vstd::prelude::*;

use crate::CallbackToken;
use crate::Handle;
use crate::channel::Channel;
use crate::domain::DomainRoot;
use crate::domain::StreamState;
use crate::domain::config_step;
use crate::domain::connected_step;
use crate::domain::control_fold;
use crate::domain::control_io;
use crate::domain::control_step;
use crate::domain::control_ui;
use crate::domain::destroy_step;
use crate::domain::destroy_ui;
use crate::domain::tweet_ui;
use crate::handles::HandleCreator;
use crate::messages::DomainEvent;
use crate::messages::FeedError;
use crate::messages::IOEvent;
use crate::messages::StreamConfig;
use crate::messages::UIEvent;
use crate::signal::UISignalHandler;
use crate::signal::WakeupEmitter;
use crate::signal::closed_after;
use crate::signal::deliveries;
use crate::tweets::Tweet;

verus! {

/// The top-level object composing the bridge: the handle allocator, the two
/// ordered channels, the domain state machine, the UI-side signal handler
/// and the wakeup emitter. It is the only object the surrounding
/// application touches.
///
/// The model keeps both ends of the bridge in one value so every
/// interleaving of creator-side calls, domain-loop steps and host-loop
/// dispatches can be driven and reasoned about explicitly; the process glue
/// around the library runs the domain steps on a dedicated thread and the
/// dispatches on the host main loop.
///
/// Two ghost logs carry the ordering story: `issued` is every control
/// message the creator ever sent, in program order, and `processed` is every
/// control message the domain thread has dispatched, in processing order.
/// Well-formedness pins the control channel to hold exactly the issued
/// messages not yet processed.
pub struct TweetFeedContext {
    handles: HandleCreator,
    control: Channel<DomainEvent>,
    events: Channel<UIEvent>,
    root: DomainRoot,
    handler: UISignalHandler,
    emitter: WakeupEmitter,
    wakeup_registered: bool,
    destroyed: Vec<Handle>,
    issued: Ghost<Seq<DomainEvent>>,
    processed: Ghost<Seq<DomainEvent>>,
}

/// The parts of the context only the domain thread and host loop touch,
/// which a creator-side operation never changes.
pub open spec fn domain_side_unchanged(pre: TweetFeedContext, post: TweetFeedContext) -> bool {
    &&& post.processed() == pre.processed()
    &&& post.streams() == pre.streams()
    &&& post.stream_configs() == pre.stream_configs()
    &&& post.pending_events() == pre.pending_events()
    &&& post.closed_seen() == pre.closed_seen()
    &&& post.wakeup_pending() == pre.wakeup_pending()
}

/// The lifecycle flags of the context, which ordinary streaming operations
/// never change.
pub open spec fn lifecycle_unchanged(pre: TweetFeedContext, post: TweetFeedContext) -> bool {
    &&& post.control_open() == pre.control_open()
    &&& post.domain_alive() == pre.domain_alive()
    &&& post.wakeup_registered() == pre.wakeup_registered()
}

/// The parts of the context only the creator thread touches, which a
/// domain-side or host-side operation never changes.
pub open spec fn creator_side_unchanged(pre: TweetFeedContext, post: TweetFeedContext) -> bool {
    &&& post.issued() == pre.issued()
    &&& post.next_handle() == pre.next_handle()
    &&& post.destroyed_handles() == pre.destroyed_handles()
    &&& post.callback() == pre.callback()
}

impl TweetFeedContext {
    /// Every control message the creator has issued, in program order.
    pub closed spec fn issued(self) -> Seq<DomainEvent> {
        self.issued@
    }

    /// Every control message the domain thread has processed, in processing
    /// order.
    pub closed spec fn processed(self) -> Seq<DomainEvent> {
        self.processed@
    }

    /// The control messages issued and not yet processed, oldest first.
    pub closed spec fn pending_control(self) -> Seq<DomainEvent> {
        self.control@
    }

    /// The UI events queued for the host loop and not yet drained, oldest
    /// first.
    pub closed spec fn pending_events(self) -> Seq<UIEvent> {
        self.events@
    }

    /// The domain state machine's per-handle state table.
    pub closed spec fn streams(self) -> Map<Handle, StreamState> {
        self.root.states()
    }

    /// The domain state machine's per-handle configurations, kept verbatim
    /// from the create calls.
    pub closed spec fn stream_configs(self) -> Map<Handle, StreamConfig> {
        self.root.configs()
    }

    /// The state of one stream, `None` for a handle whose create message the
    /// domain has not processed.
    pub open spec fn state_of(self, h: Handle) -> Option<StreamState> {
        if self.streams().contains_key(h) {
            Some(self.streams()[h])
        } else {
            None
        }
    }

    /// The registered tweet callback, if any.
    pub closed spec fn callback(self) -> Option<CallbackToken> {
        self.handler.callback()
    }

    /// The handles whose destruction the UI-side drain has recorded.
    pub closed spec fn closed_seen(self) -> Set<Handle> {
        self.handler.closed_set()
    }

    /// Whether a wakeup invocation is pending on the host loop.
    pub closed spec fn wakeup_pending(self) -> bool {
        self.emitter.pending()
    }

    /// Whether the wakeup registration with the host loop is still in place.
    pub closed spec fn wakeup_registered(self) -> bool {
        self.wakeup_registered
    }

    /// The handle the next stream creation will be given.
    pub closed spec fn next_handle(self) -> Handle {
        self.handles.next_handle()
    }

    /// The handles the allocator has issued.
    pub closed spec fn issued_handles(self) -> Set<Handle> {
        self.handles.issued()
    }

    /// The handles the creator has issued a destroy for.
    pub closed spec fn destroyed_handles(self) -> Set<Handle> {
        Set::new(|h: Handle| self.destroyed@.contains(h))
    }

    /// Whether the control channel's sending side is still held — dropped
    /// first at teardown.
    pub closed spec fn control_open(self) -> bool {
        self.control.sender_open()
    }

    /// Whether the domain thread is still running.
    pub closed spec fn domain_alive(self) -> bool {
        self.control.receiver_open()
    }

    /// Well-formedness: the component invariants, the log equation tying the
    /// control channel to the two ghost logs, and the lifecycle ties — a
    /// live wakeup registration is exactly a live event-channel receiving
    /// side, and a live domain thread holds a live event-channel sending
    /// side.
    pub closed spec fn wf(self) -> bool {
        &&& self.handles.wf()
        &&& self.root.wf()
        &&& self.issued@ == self.processed@ + self.control@
        &&& self.wakeup_registered == self.events.receiver_open()
        &&& self.control.receiver_open() ==> self.events.sender_open()
    }

    /// Builds the bridge: fresh allocator, fresh channels, fresh state
    /// machine, and a wakeup registration whose handler owns the event
    /// channel's receiving side. The process glue around the library is
    /// what actually spawns the domain thread and registers with a concrete
    /// host loop, and reports synchronously if either fails; a constructed
    /// context starts with the domain alive and the registration in place.
    pub fn create_context() -> (r: TweetFeedContext)
        ensures
            r.wf(),
            r.issued() == Seq::<DomainEvent>::empty(),
            r.processed() == Seq::<DomainEvent>::empty(),
            r.pending_control() == Seq::<DomainEvent>::empty(),
            r.pending_events() == Seq::<UIEvent>::empty(),
            r.streams() =~= Map::<Handle, StreamState>::empty(),
            r.stream_configs() =~= Map::<Handle, StreamConfig>::empty(),
            r.callback() is None,
            r.closed_seen() =~= Set::<Handle>::empty(),
            !r.wakeup_pending(),
            r.wakeup_registered(),
            r.next_handle() == 1,
            r.destroyed_handles() =~= Set::<Handle>::empty(),
            r.control_open(),
            r.domain_alive(),
    {
        TweetFeedContext {
            handles: HandleCreator::new(),
            control: Channel::new(),
            events: Channel::new(),
            root: DomainRoot::new(),
            handler: UISignalHandler::new(),
            emitter: WakeupEmitter::new(),
            wakeup_registered: true,
            destroyed: Vec::new(),
            issued: Ghost(Seq::empty()),
            processed: Ghost(Seq::empty()),
        }
    }

    /// Allocates a fresh handle and asynchronously enqueues the create
    /// message, returning immediately: domain-side registration is
    /// eventually consistent, and per-channel FIFO order guarantees a
    /// following start for the same handle is processed after its create.
    /// Reports `ChannelClosed`, and changes nothing, if the peer thread has
    /// terminated.
    pub fn stream_create(&mut self, config: StreamConfig) -> (r: Result<Handle, FeedError>)
        requires
            old(self).wf(),
            old(self).next_handle() < u32::MAX,
        ensures
            final(self).wf(),
            lifecycle_unchanged(*old(self), *final(self)),
            domain_side_unchanged(*old(self), *final(self)),
            final(self).destroyed_handles() == old(self).destroyed_handles(),
            final(self).callback() == old(self).callback(),
            match r {
                Ok(h) => {
                    &&& old(self).control_open() && old(self).domain_alive()
                    &&& h == old(self).next_handle()
                    &&& !old(self).issued_handles().contains(h)
                    &&& final(self).issued_handles() == old(self).issued_handles().insert(h)
                    &&& final(self).next_handle() == old(self).next_handle() + 1
                    &&& final(self).issued() == old(self).issued().push(
                        DomainEvent::StreamCreate(h, config),
                    )
                    &&& final(self).pending_control() == old(self).pending_control().push(
                        DomainEvent::StreamCreate(h, config),
                    )
                },
                Err(e) => {
                    &&& e == FeedError::ChannelClosed
                    &&& !(old(self).control_open() && old(self).domain_alive())
                    &&& *final(self) == *old(self)
                },
            },
    {
        if !self.control.sender_is_open() || !self.control.receiver_is_open() {
            return Err(FeedError::ChannelClosed);
        }
        let h = self.handles.create();
        let evt = DomainEvent::StreamCreate(h, config);
        let ghost msg = evt;
        let _ = self.control.send(evt);
        self.issued = Ghost(self.issued@.push(msg));
        proof {
            assert(self.issued@ =~= self.processed@ + self.control@);
        }
        Ok(h)
    }

    /// Installs or replaces the tweet callback, then enqueues the start
    /// message. A start naming a never-created handle, or one the creator
    /// has already destroyed, is refused as `UnknownHandle` — handles are
    /// single-use and never re-created, so a start after destroy can never
    /// become valid. On any refusal nothing changes, the callback included.
    pub fn stream_start(&mut self, stream: Handle, callback: CallbackToken) -> (r: Result<
        (),
        FeedError,
    >)
        requires
            old(self).wf(),
        ensures
            final(self).wf(),
            lifecycle_unchanged(*old(self), *final(self)),
            domain_side_unchanged(*old(self), *final(self)),
            final(self).next_handle() == old(self).next_handle(),
            final(self).destroyed_handles() == old(self).destroyed_handles(),
            ({
                let valid = old(self).issued_handles().contains(stream) && !old(
                    self,
                ).destroyed_handles().contains(stream);
                let up = old(self).control_open() && old(self).domain_alive();
                &&& r is Ok <==> valid && up
                &&& r == Err::<(), FeedError>(FeedError::UnknownHandle) <==> !valid
                &&& r == Err::<(), FeedError>(FeedError::ChannelClosed) <==> valid && !up
                &&& r is Ok ==> final(self).callback() == Some(callback) && final(self).issued()
                    == old(self).issued().push(DomainEvent::StreamStart(stream))
                    && final(self).pending_control() == old(self).pending_control().push(
                    DomainEvent::StreamStart(stream),
                )
                &&& !(r is Ok) ==> *final(self) == *old(self)
            }),
    {
        let known = self.handles.has_issued(stream) && !vec_contains(&self.destroyed, stream);
        if !known {
            return Err(FeedError::UnknownHandle);
        }
        if !self.control.sender_is_open() || !self.control.receiver_is_open() {
            return Err(FeedError::ChannelClosed);
        }
        self.handler.set_tweet_callback(callback);
        let _ = self.control.send(DomainEvent::StreamStart(stream));
        self.issued = Ghost(self.issued@.push(DomainEvent::StreamStart(stream)));
        proof {
            assert(self.issued@ =~= self.processed@ + self.control@);
        }
        Ok(())
    }

    /// Enqueues the destroy message: asynchronous and best-effort, with no
    /// acknowledgement — returning gives no guarantee the domain thread has
    /// stopped processing the handle; the only synchronous barrier is full
    /// context teardown. The destruction is also recorded on the creator
    /// side, so a later start for the handle is refused. A destroy naming an
    /// unknown handle is ignored by the domain, not erred; only a terminated
    /// peer is reported.
    pub fn stream_destroy(&mut self, stream: Handle) -> (r: Result<(), FeedError>)
        requires
            old(self).wf(),
        ensures
            final(self).wf(),
            lifecycle_unchanged(*old(self), *final(self)),
            domain_side_unchanged(*old(self), *final(self)),
            final(self).next_handle() == old(self).next_handle(),
            final(self).callback() == old(self).callback(),
            match r {
                Ok(_) => {
                    &&& old(self).control_open() && old(self).domain_alive()
                    &&& final(self).issued() == old(self).issued().push(
                        DomainEvent::StreamDestroy(stream),
                    )
                    &&& final(self).pending_control() == old(self).pending_control().push(
                        DomainEvent::StreamDestroy(stream),
                    )
                    &&& final(self).destroyed_handles() == old(self).destroyed_handles().insert(
                        stream,
                    )
                },
                Err(e) => {
                    &&& e == FeedError::ChannelClosed
                    &&& !(old(self).control_open() && old(self).domain_alive())
                    &&& *final(self) == *old(self)
                },
            },
    {
        if !self.control.sender_is_open() || !self.control.receiver_is_open() {
            return Err(FeedError::ChannelClosed);
        }
        let _ = self.control.send(DomainEvent::StreamDestroy(stream));
        self.issued = Ghost(self.issued@.push(DomainEvent::StreamDestroy(stream)));
        proof {
            assert(self.issued@ =~= self.processed@ + self.control@);
        }
        let ghost pre = self.destroyed_handles();
        self.destroyed.push(stream);
        proof {
            broadcast use vstd::seq_lib::lemma_seq_contains_after_push;

            assert(self.destroyed_handles() =~= pre.insert(stream));
        }
        Ok(())
    }

    /// One iteration of the domain event loop's control branch, run on the
    /// domain thread: dequeues the oldest pending control message, lets the
    /// state machine process it, queues the zero-or-one resulting UI event
    /// on the event channel and fires the wakeup signal for it, and hands
    /// back the zero-or-one outbound command for the transport collaborator.
    /// Returns whether a message was processed; with nothing pending the
    /// context is untouched.
    pub fn domain_step(&mut self) -> (r: (bool, Option<IOEvent>))
        requires
            old(self).wf(),
            old(self).domain_alive(),
        ensures
            final(self).wf(),
            creator_side_unchanged(*old(self), *final(self)),
            lifecycle_unchanged(*old(self), *final(self)),
            old(self).pending_control().len() == 0 ==> *final(self) == *old(self) && r == (
                false,
                None::<IOEvent>,
            ),
            old(self).pending_control().len() > 0 ==> ({
                let msg = old(self).pending_control()[0];
                let ui = control_ui(old(self).streams(), msg);
                &&& r.0 == true
                &&& r.1 == control_io(old(self).streams(), msg)
                &&& final(self).pending_control() == old(self).pending_control().drop_first()
                &&& final(self).processed() == old(self).processed().push(msg)
                &&& final(self).streams() == control_step(old(self).streams(), msg)
                &&& final(self).stream_configs() == config_step(old(self).stream_configs(), msg)
                &&& final(self).closed_seen() == old(self).closed_seen()
                &&& ui matches Some(e) ==> final(self).pending_events() == (if old(
                    self,
                ).wakeup_registered() {
                    old(self).pending_events().push(e)
                } else {
                    old(self).pending_events()
                }) && final(self).wakeup_pending()
                &&& ui is None ==> final(self).pending_events() == old(self).pending_events()
                    && final(self).wakeup_pending() == old(self).wakeup_pending()
            }),
    {
        if self.control.len() == 0 {
            return (false, None);
        }
        let msg = match self.control.try_recv() {
            Some(m) => m,
            None => {
                return (false, None);
            },
        };
        let ghost message = msg;
        let (ui, io) = self.root.incoming_domain_event(msg);
        self.processed = Ghost(self.processed@.push(message));
        proof {
            assert(self.issued@ =~= self.processed@ + self.control@);
        }
        match ui {
            Some(e) => {
                self.events.send_best_effort(e);
                self.emitter.fire();
            },
            None => {},
        }
        (true, io)
    }

    /// The transport collaborator reports one stream's connection as
    /// established; the stream, if it was connecting, is now streaming.
    /// Runs on the domain thread.
    pub fn connection_established(&mut self, stream: Handle)
        requires
            old(self).wf(),
            old(self).domain_alive(),
        ensures
            final(self).wf(),
            creator_side_unchanged(*old(self), *final(self)),
            lifecycle_unchanged(*old(self), *final(self)),
            final(self).streams() == connected_step(old(self).streams(), stream),
            final(self).stream_configs() == old(self).stream_configs(),
            final(self).processed() == old(self).processed(),
            final(self).pending_control() == old(self).pending_control(),
            final(self).pending_events() == old(self).pending_events(),
            final(self).closed_seen() == old(self).closed_seen(),
            final(self).wakeup_pending() == old(self).wakeup_pending(),
    {
        self.root.connection_established(stream);
    }

    /// The transport collaborator hands the domain loop one fully parsed
    /// tweet for the stream named by the handle. While the stream is
    /// streaming, exactly one `TweetArrived` event is queued and the wakeup
    /// signal fired; in every other state — closed and never-created handles
    /// included — the tweet is discarded. Runs on the domain thread; a
    /// buffer holding several tweets is represented as repeated calls.
    pub fn inject_tweet(&mut self, stream: Handle, tweet: Tweet)
        requires
            old(self).wf(),
            old(self).domain_alive(),
        ensures
            final(self).wf(),
            creator_side_unchanged(*old(self), *final(self)),
            lifecycle_unchanged(*old(self), *final(self)),
            final(self).streams() == old(self).streams(),
            final(self).stream_configs() == old(self).stream_configs(),
            final(self).processed() == old(self).processed(),
            final(self).pending_control() == old(self).pending_control(),
            final(self).closed_seen() == old(self).closed_seen(),
            ({
                let ui = tweet_ui(old(self).streams(), stream, tweet);
                &&& ui matches Some(e) ==> final(self).pending_events() == (if old(
                    self,
                ).wakeup_registered() {
                    old(self).pending_events().push(e)
                } else {
                    old(self).pending_events()
                }) && final(self).wakeup_pending()
                &&& ui is None ==> final(self).pending_events() == old(self).pending_events()
                    && final(self).wakeup_pending() == old(self).wakeup_pending()
            }),
    {
        let ui = self.root.incoming_tweet(stream, tweet);
        match ui {
            Some(e) => {
                self.events.send_best_effort(e);
                self.emitter.fire();
            },
            None => {},
        }
    }

    /// A transport failure for one stream folds back into the bridge as an
    /// ordinary control-plane event, never a thread-terminating fault: the
    /// machine records the terminal state for the affected handle, the
    /// drain is told through the queued `StreamClosed` marker, and the
    /// domain thread stays alive. Runs on the domain thread.
    pub fn transport_failure(&mut self, stream: Handle)
        requires
            old(self).wf(),
            old(self).domain_alive(),
        ensures
            final(self).wf(),
            creator_side_unchanged(*old(self), *final(self)),
            lifecycle_unchanged(*old(self), *final(self)),
            final(self).streams() == destroy_step(old(self).streams(), stream),
            final(self).stream_configs() == old(self).stream_configs(),
            final(self).processed() == old(self).processed(),
            final(self).pending_control() == old(self).pending_control(),
            final(self).closed_seen() == old(self).closed_seen(),
            ({
                let ui = destroy_ui(old(self).streams(), stream);
                &&& ui matches Some(e) ==> final(self).pending_events() == (if old(
                    self,
                ).wakeup_registered() {
                    old(self).pending_events().push(e)
                } else {
                    old(self).pending_events()
                }) && final(self).wakeup_pending()
                &&& ui is None ==> final(self).pending_events() == old(self).pending_events()
                    && final(self).wakeup_pending() == old(self).wakeup_pending()
            }),
    {
        let ui = self.root.transport_failure(stream);
        match ui {
            Some(e) => {
                self.events.send_best_effort(e);
                self.emitter.fire();
            },
            None => {},
        }
    }

    /// What the host main loop does each time it reaches the wakeup
    /// registration, on its own thread. With no wakeup pending, or the
    /// registration disposed, the handler is not invoked and nothing
    /// changes. With one pending — however many times the emitter fired
    /// since the last run — the handler runs exactly once: it drains the
    /// entire event channel in arrival order, records every destruction in
    /// the batch, and returns the tweets for the registered callback, each
    /// with its stream's handle, in arrival order; tweets whose stream's
    /// destruction is on record are withheld. With no callback registered
    /// the batch is consumed and its tweets discarded.
    pub fn host_dispatch(&mut self) -> (r: Option<Vec<(Handle, Tweet)>>)
        requires
            old(self).wf(),
        ensures
            final(self).wf(),
            creator_side_unchanged(*old(self), *final(self)),
            lifecycle_unchanged(*old(self), *final(self)),
            final(self).streams() == old(self).streams(),
            final(self).stream_configs() == old(self).stream_configs(),
            final(self).processed() == old(self).processed(),
            final(self).pending_control() == old(self).pending_control(),
            !(old(self).wakeup_pending() && old(self).wakeup_registered()) ==> r == None::<
                Vec<(Handle, Tweet)>,
            > && *final(self) == *old(self),
            old(self).wakeup_pending() && old(self).wakeup_registered() ==> ({
                &&& !final(self).wakeup_pending()
                &&& final(self).pending_events() == Seq::<UIEvent>::empty()
                &&& final(self).closed_seen() == closed_after(
                    old(self).closed_seen(),
                    old(self).pending_events(),
                )
                &&& r matches Some(v)
                &&& old(self).callback() is Some ==> (r matches Some(v) && v@ == deliveries(
                    old(self).closed_seen(),
                    old(self).pending_events(),
                ))
                &&& old(self).callback() is None ==> (r matches Some(v) && v@ == Seq::<
                    (Handle, Tweet),
                >::empty())
            }),
    {
        if !self.wakeup_registered {
            return None;
        }
        if !self.emitter.is_pending() {
            return None;
        }
        let _ = self.emitter.take();
        let batch = self.events.drain();
        let out = self.handler.wakeup(batch);
        Some(out)
    }

    /// Runs the domain loop until the control channel is both closed and
    /// drained: the "drain current, then stop" policy the domain thread
    /// follows once teardown drops the sending side. Processes every
    /// pending message in issue order, handing each outbound command to
    /// nothing (teardown is already abandoning the transport), and returns
    /// once the processed log has caught up with the issued log.
    fn domain_run_to_shutdown(&mut self)
        requires
            old(self).wf(),
            old(self).domain_alive(),
            !old(self).control_open(),
        ensures
            final(self).wf(),
            creator_side_unchanged(*old(self), *final(self)),
            lifecycle_unchanged(*old(self), *final(self)),
            final(self).processed() == final(self).issued(),
            final(self).pending_control() == Seq::<DomainEvent>::empty(),
            final(self).streams() == control_fold(
                old(self).streams(),
                old(self).pending_control(),
            ),
    {
        while self.pending_control_len() > 0
            invariant
                self.wf(),
                self.domain_alive(),
                !self.control_open(),
                creator_side_unchanged(*old(self), *self),
                lifecycle_unchanged(*old(self), *self),
                control_fold(self.streams(), self.pending_control()) == control_fold(
                    old(self).streams(),
                    old(self).pending_control(),
                ),
            decreases self.pending_control().len(),
        {
            let ghost pre_streams = self.streams();
            let ghost pre_pending = self.pending_control();
            let _ = self.domain_step();
            proof {
                assert(control_fold(pre_streams, pre_pending) == control_fold(
                    self.streams(),
                    self.pending_control(),
                ));
            }
        }
        proof {
            assert(self.issued() =~= self.processed() + self.pending_control());
            assert(self.processed() =~= self.processed() + Seq::<DomainEvent>::empty());
        }
    }

    /// Tears the context down. Drops the control channel's sending side
    /// first — the signal for the domain thread to finish the messages
    /// already queued and exit; waits until the domain thread has processed
    /// them all and exited (the join, the bridge's only synchronous
    /// barrier); then disposes the wakeup registration. The wait always
    /// terminates, however many streams were active: closing the sending
    /// side stops the control queue from growing, the domain processes one
    /// message per step, and the event channel's best-effort sends never
    /// block the domain thread.
    pub fn teardown(&mut self)
        requires
            old(self).wf(),
            old(self).control_open(),
            old(self).domain_alive(),
        ensures
            final(self).wf(),
            final(self).issued() == old(self).issued(),
            final(self).processed() == old(self).issued(),
            final(self).pending_control() == Seq::<DomainEvent>::empty(),
            !final(self).control_open(),
            !final(self).domain_alive(),
            !final(self).wakeup_registered(),
            final(self).streams() == control_fold(
                old(self).streams(),
                old(self).pending_control(),
            ),
            final(self).next_handle() == old(self).next_handle(),
            final(self).destroyed_handles() == old(self).destroyed_handles(),
    {
        self.control.close_sender();
        self.domain_run_to_shutdown();
        self.control.close_receiver();
        self.events.close_sender();
        self.dispose_wakeup();
    }

    /// Disposes the wakeup registration: deregisters the handler from the
    /// host loop and drops the handler's hold on the event channel.
    /// Idempotent, and safe even if registration never succeeded.
    pub fn dispose_wakeup(&mut self)
        requires
            old(self).wf(),
            !old(self).domain_alive() || !old(self).wakeup_registered(),
        ensures
            final(self).wf(),
            !final(self).wakeup_registered(),
            creator_side_unchanged(*old(self), *final(self)),
            final(self).processed() == old(self).processed(),
            final(self).pending_control() == old(self).pending_control(),
            final(self).pending_events() == old(self).pending_events(),
            final(self).streams() == old(self).streams(),
            final(self).closed_seen() == old(self).closed_seen(),
            final(self).wakeup_pending() == old(self).wakeup_pending(),
            final(self).control_open() == old(self).control_open(),
            final(self).domain_alive() == old(self).domain_alive(),
    {
        self.wakeup_registered = false;
        if self.events.receiver_is_open() {
            self.events.close_receiver();
        }
    }

    /// How many control messages are pending.
    pub fn pending_control_len(&self) -> (r: usize)
        ensures
            r == self.pending_control().len(),
    {
        self.control.len()
    }

    /// How many UI events are queued and not yet drained.
    pub fn pending_events_len(&self) -> (r: usize)
        ensures
            r == self.pending_events().len(),
    {
        self.events.len()
    }

    /// The state the domain machine currently records for the handle.
    pub fn stream_state(&self, h: Handle) -> (r: Option<StreamState>)
        ensures
            r == self.state_of(h),
    {
        self.root.state(h)
    }

    /// Whether a wakeup invocation is pending on the host loop.
    pub fn is_wakeup_pending(&self) -> (r: bool)
        ensures
            r == self.wakeup_pending(),
    {
        self.emitter.is_pending()
    }
}

/// Whether the vector holds the handle.
fn vec_contains(v: &Vec<Handle>, h: Handle) -> (r: bool)
    ensures
        r == v@.contains(h),
{
    let mut i: usize = 0;
    let mut found = false;
    while i < v.len()
        invariant
            i <= v@.len(),
            found == v@.subrange(0, i as int).contains(h),
        decreases v@.len() - i,
    {
        proof {
            broadcast use vstd::seq_lib::lemma_seq_contains_after_push;

            assert(v@.subrange(0, i + 1) =~= v@.subrange(0, i as int).push(v@[i as int]));
        }
        if v[i] == h {
            found = true;
        }
        i = i + 1;
    }
    proof {
        assert(v@.subrange(0, v@.len() as int) =~= v@);
    }
    found
}

/// Order preservation: at every reachable, well-formed context state the
/// control messages the domain thread has processed are exactly the first
/// `processed().len()` messages the creator issued, in issue order —
/// whatever interleaving of creator calls, domain steps and host dispatches
/// led there.
pub proof fn lemma_order_preservation(ctx: TweetFeedContext)
    requires
        ctx.wf(),
    ensures
        ctx.issued() == ctx.processed() + ctx.pending_control(),
        ctx.processed().len() <= ctx.issued().len(),
        ctx.processed() == ctx.issued().take(ctx.processed().len() as int),
{
    assert(ctx.issued().take(ctx.processed().len() as int) =~= ctx.processed());
}

} // verus!
