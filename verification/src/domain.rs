use vstd::prelude::*;

use vstd::hash_map::HashMapWithView;

use crate::Handle;
use crate::messages::DomainEvent;
use crate::messages::IOEvent;
use crate::messages::StreamConfig;
use crate::messages::UIEvent;
use crate::tweets::Tweet;

verus! {

/// The per-handle states of a stream. `Closed` is terminal: events received
/// for a closed handle are ignored, never erred, and a handle is never
/// resurrected.
#[derive(Clone, Copy, PartialEq, Eq, Structural, Debug)]
pub enum StreamState {
    Created,
    Connecting,
    Streaming,
    Closed,
}

/// What one control message does to the per-handle state table: `Create`
/// registers the handle, `Start` moves `Created` to `Connecting`, `Destroy`
/// moves any state to the terminal `Closed`.
pub open spec fn control_step(
    m: Map<Handle, StreamState>,
    evt: DomainEvent,
) -> Map<Handle, StreamState> {
    match evt {
        DomainEvent::StreamCreate(h, _) => if !m.contains_key(h) {
            m.insert(h, StreamState::Created)
        } else {
            m
        },
        DomainEvent::StreamStart(h) => if m.contains_key(h) && m[h] == StreamState::Created {
            m.insert(h, StreamState::Connecting)
        } else {
            m
        },
        DomainEvent::StreamDestroy(h) => destroy_step(m, h),
    }
}

/// Destruction (by message or by transport failure) records the terminal
/// state for a known handle and ignores an unknown one.
pub open spec fn destroy_step(
    m: Map<Handle, StreamState>,
    h: Handle,
) -> Map<Handle, StreamState> {
    if m.contains_key(h) {
        m.insert(h, StreamState::Closed)
    } else {
        m
    }
}

/// The single UI event destruction emits: a `StreamClosed` marker, exactly
/// when the handle was live, so the drain logic learns of the destruction
/// once and only once.
pub open spec fn destroy_ui(m: Map<Handle, StreamState>, h: Handle) -> Option<UIEvent> {
    if m.contains_key(h) && m[h] != StreamState::Closed {
        Some(UIEvent::StreamClosed(h))
    } else {
        None
    }
}

/// The zero-or-one UI event one control message emits.
pub open spec fn control_ui(m: Map<Handle, StreamState>, evt: DomainEvent) -> Option<UIEvent> {
    match evt {
        DomainEvent::StreamDestroy(h) => destroy_ui(m, h),
        _ => None,
    }
}

/// The zero-or-one outbound transport command one control message emits:
/// starting a created stream opens its connection, destroying a stream whose
/// connection is open (or opening) closes it.
pub open spec fn control_io(m: Map<Handle, StreamState>, evt: DomainEvent) -> Option<IOEvent> {
    match evt {
        DomainEvent::StreamStart(h) => if m.contains_key(h) && m[h] == StreamState::Created {
            Some(IOEvent::OpenConnection(h))
        } else {
            None
        },
        DomainEvent::StreamDestroy(h) => if m.contains_key(h) && (m[h] == StreamState::Connecting
            || m[h] == StreamState::Streaming) {
            Some(IOEvent::CloseConnection(h))
        } else {
            None
        },
        _ => None,
    }
}

/// The state table after the machine processes a whole sequence of control
/// messages, oldest first.
pub open spec fn control_fold(
    m: Map<Handle, StreamState>,
    msgs: Seq<DomainEvent>,
) -> Map<Handle, StreamState>
    decreases msgs.len(),
{
    if msgs.len() == 0 {
        m
    } else {
        control_fold(control_step(m, msgs[0]), msgs.drop_first())
    }
}

/// What the `Create` message does to the stored configurations: a new handle
/// keeps its caller-supplied descriptor verbatim; nothing else touches them.
pub open spec fn config_step(
    c: Map<Handle, StreamConfig>,
    evt: DomainEvent,
) -> Map<Handle, StreamConfig> {
    match evt {
        DomainEvent::StreamCreate(h, cfg) => if !c.contains_key(h) {
            c.insert(h, cfg)
        } else {
            c
        },
        _ => c,
    }
}

/// What a connection-established notice from the transport does:
/// `Connecting` moves to `Streaming`; any other state ignores it.
pub open spec fn connected_step(
    m: Map<Handle, StreamState>,
    h: Handle,
) -> Map<Handle, StreamState> {
    if m.contains_key(h) && m[h] == StreamState::Connecting {
        m.insert(h, StreamState::Streaming)
    } else {
        m
    }
}

/// The zero-or-one UI event a parsed tweet from the transport emits: exactly
/// one `TweetArrived` while the stream is `Streaming`, nothing otherwise —
/// in particular nothing once the stream is closed ("destroy wins").
pub open spec fn tweet_ui(
    m: Map<Handle, StreamState>,
    h: Handle,
    tweet: Tweet,
) -> Option<UIEvent> {
    if m.contains_key(h) && m[h] == StreamState::Streaming {
        Some(UIEvent::TweetArrived(h, tweet))
    } else {
        None
    }
}

/// No resurrection: once the machine records the terminal state for a
/// handle, no later control message, connection notice or destruction —
/// whatever handle it names — revives it, and a tweet for it produces no
/// event. Together with the drain logic's withholding, this is why a
/// destroyed stream can never reach the callback again.
pub proof fn lemma_closed_is_terminal(
    m: Map<Handle, StreamState>,
    evt: DomainEvent,
    other: Handle,
    h: Handle,
    tweet: Tweet,
)
    requires
        m.contains_key(h),
        m[h] == StreamState::Closed,
    ensures
        control_step(m, evt).contains_key(h) && control_step(m, evt)[h] == StreamState::Closed,
        connected_step(m, other).contains_key(h) && connected_step(m, other)[h]
            == StreamState::Closed,
        destroy_step(m, other).contains_key(h) && destroy_step(m, other)[h]
            == StreamState::Closed,
        tweet_ui(m, h, tweet) is None,
{
}

/// The per-handle policy running on the domain thread: it converts incoming
/// control messages and transport notices into at most one UI-bound event
/// and at most one outbound transport command per dispatch. A byte buffer
/// holding several tweets is represented as repeated `incoming_tweet` calls,
/// one per fully parsed tweet.
pub struct DomainRoot {
    states: HashMapWithView<Handle, StreamState>,
    configs: HashMapWithView<Handle, StreamConfig>,
}

impl DomainRoot {
    /// The per-handle state table.
    pub closed spec fn states(self) -> Map<Handle, StreamState> {
        self.states@
    }

    /// The caller-supplied configuration of each registered handle.
    pub closed spec fn configs(self) -> Map<Handle, StreamConfig> {
        self.configs@
    }

    /// Every registered handle has both a state and a configuration.
    pub open spec fn wf(self) -> bool {
        forall|h: Handle|
            #![trigger self.states().contains_key(h)]
            #![trigger self.configs().contains_key(h)]
            self.states().contains_key(h) == self.configs().contains_key(h)
    }

    /// The state of one handle, `None` for a never-created one.
    pub open spec fn state_of(self, h: Handle) -> Option<StreamState> {
        if self.states().contains_key(h) {
            Some(self.states()[h])
        } else {
            None
        }
    }

    /// A handle is live between the processing of its create message and the
    /// recording of its terminal state.
    pub open spec fn live(self, h: Handle) -> bool {
        self.states().contains_key(h) && self.states()[h] != StreamState::Closed
    }

    /// A fresh machine with no streams registered.
    pub fn new() -> (r: DomainRoot)
        ensures
            r.wf(),
            r.states() =~= Map::<Handle, StreamState>::empty(),
            r.configs() =~= Map::<Handle, StreamConfig>::empty(),
    {
        proof {
            broadcast use vstd::std_specs::hash::axiom_u32_obeys_hash_table_key_model;

        }
        DomainRoot { states: HashMapWithView::new(), configs: HashMapWithView::new() }
    }

    /// Dispatches one control message, returning the zero-or-one UI event to
    /// queue and the zero-or-one transport command to execute.
    pub fn incoming_domain_event(&mut self, evt: DomainEvent) -> (r: (
        Option<UIEvent>,
        Option<IOEvent>,
    ))
        requires
            old(self).wf(),
        ensures
            final(self).wf(),
            final(self).states() == control_step(old(self).states(), evt),
            final(self).configs() == config_step(old(self).configs(), evt),
            r.0 == control_ui(old(self).states(), evt),
            r.1 == control_io(old(self).states(), evt),
    {
        match evt {
            DomainEvent::StreamCreate(h, cfg) => {
                if !self.states.contains_key(&h) {
                    self.states.insert(h, StreamState::Created);
                    self.configs.insert(h, cfg);
                }
                (None, None)
            },
            DomainEvent::StreamStart(h) => {
                let started = match self.states.get(&h) {
                    Some(s) => *s == StreamState::Created,
                    None => false,
                };
                if started {
                    self.states.insert(h, StreamState::Connecting);
                    (None, Some(IOEvent::OpenConnection(h)))
                } else {
                    (None, None)
                }
            },
            DomainEvent::StreamDestroy(h) => self.destroy(h),
        }
    }

    /// Records the terminal state for the handle, whether destruction came
    /// as a control message or as a folded-back transport failure.
    fn destroy(&mut self, h: Handle) -> (r: (Option<UIEvent>, Option<IOEvent>))
        requires
            old(self).wf(),
        ensures
            final(self).wf(),
            final(self).states() == destroy_step(old(self).states(), h),
            final(self).configs() == old(self).configs(),
            r.0 == destroy_ui(old(self).states(), h),
            r.1 == control_io(old(self).states(), DomainEvent::StreamDestroy(h)),
    {
        let cur = match self.states.get(&h) {
            Some(s) => Some(*s),
            None => None,
        };
        match cur {
            Some(was) => {
                self.states.insert(h, StreamState::Closed);
                let ui = if was != StreamState::Closed {
                    Some(UIEvent::StreamClosed(h))
                } else {
                    None
                };
                let io = if was == StreamState::Connecting || was == StreamState::Streaming {
                    Some(IOEvent::CloseConnection(h))
                } else {
                    None
                };
                (ui, io)
            },
            None => (None, None),
        }
    }

    /// The transport collaborator reports the stream's connection as
    /// established: `Connecting` moves to `Streaming`.
    pub fn connection_established(&mut self, h: Handle)
        requires
            old(self).wf(),
        ensures
            final(self).wf(),
            final(self).states() == connected_step(old(self).states(), h),
            final(self).configs() == old(self).configs(),
    {
        let connecting = match self.states.get(&h) {
            Some(s) => *s == StreamState::Connecting,
            None => false,
        };
        if connecting {
            self.states.insert(h, StreamState::Streaming);
            proof {
                assert forall|x: Handle|
                    self.states().contains_key(x) == self.configs().contains_key(x) by {
                    assert(old(self).states().contains_key(x) == old(self).configs().contains_key(
                        x,
                    ));
                }
            }
        }
    }

    /// One fully parsed tweet arrived from the transport for the stream
    /// named by `h`. Emits exactly one `TweetArrived` event while the stream
    /// is `Streaming`; for any other state — in particular a closed or
    /// never-created handle — the tweet is discarded.
    pub fn incoming_tweet(&mut self, h: Handle, tweet: Tweet) -> (r: Option<UIEvent>)
        requires
            old(self).wf(),
        ensures
            *final(self) == *old(self),
            r == tweet_ui(old(self).states(), h, tweet),
    {
        let streaming = match self.states.get(&h) {
            Some(s) => *s == StreamState::Streaming,
            None => false,
        };
        if streaming {
            Some(UIEvent::TweetArrived(h, tweet))
        } else {
            None
        }
    }

    /// A transport failure for the stream is folded back in as an ordinary
    /// control-plane event, never a thread-terminating fault: the machine
    /// records the terminal state for the affected handle and the domain
    /// thread stays alive.
    pub fn transport_failure(&mut self, h: Handle) -> (r: Option<UIEvent>)
        requires
            old(self).wf(),
        ensures
            final(self).wf(),
            final(self).states() == destroy_step(old(self).states(), h),
            final(self).configs() == old(self).configs(),
            r == destroy_ui(old(self).states(), h),
    {
        let (ui, _io) = self.destroy(h);
        ui
    }

    /// The state of one handle, for the transport collaborator and tests.
    pub fn state(&self, h: Handle) -> (r: Option<StreamState>)
        ensures
            r == self.state_of(h),
    {
        match self.states.get(&h) {
            Some(s) => Some(*s),
            None => None,
        }
    }

    /// The stored configuration of one handle, forwarded verbatim from the
    /// create call; the transport collaborator reads it when opening the
    /// stream's connection.
    pub fn config(&self, h: Handle) -> (r: Option<&StreamConfig>)
        ensures
            match r {
                Some(cfg) => self.configs().contains_key(h) && *cfg == self.configs()[h],
                None => !self.configs().contains_key(h),
            },
    {
        self.configs.get(&h)
    }
}

} // verus!
