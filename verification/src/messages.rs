use vstd::prelude::*;

use crate::Handle;
use crate::tweets::Tweet;

verus! {

/// Caller-supplied filter/criteria descriptor. The bridge treats it as
/// opaque: it is forwarded verbatim to the domain state machine, which keeps
/// it for the transport collaborator to read when the stream's connection is
/// opened.
pub struct StreamConfig {
    filter: String,
}

impl StreamConfig {
    /// The filter text the caller supplied.
    pub closed spec fn filter_view(self) -> Seq<char> {
        self.filter@
    }

    pub fn new(filter: String) -> (r: StreamConfig)
        ensures
            r.filter_view() == filter@,
    {
        StreamConfig { filter }
    }

    pub fn filter(&self) -> (r: &str)
        ensures
            r@ == self.filter_view(),
    {
        self.filter.as_str()
    }
}

/// Control message travelling creator thread → domain thread.
pub enum DomainEvent {
    StreamCreate(Handle, StreamConfig),
    StreamStart(Handle),
    StreamDestroy(Handle),
}

/// Event travelling domain thread → creator side, delivered by the host
/// main loop's wakeup handler.
pub enum UIEvent {
    /// A fully parsed tweet arrived on the stream named by the handle.
    TweetArrived(Handle, Tweet),
    /// The domain recorded the terminal state of the handle, either because
    /// its destroy message was processed or because a transport failure was
    /// folded back into the stream's state. The drain logic uses it to
    /// withhold queued tweets for a destroyed stream.
    StreamClosed(Handle),
}

/// Outbound transport command, produced only by the domain state machine and
/// executed by the transport collaborator; it never crosses the
/// creator-facing boundary.
pub enum IOEvent {
    OpenConnection(Handle),
    SendBytes(Handle, Vec<u8>),
    CloseConnection(Handle),
}

/// Channel-level and handle-level failure conditions surfaced to the caller.
/// Transport failures are not errors of the bridge: they re-enter the domain
/// loop as ordinary control-plane events.
#[derive(Clone, Copy, PartialEq, Eq, Structural, Debug)]
pub enum FeedError {
    /// The peer thread of a channel has terminated.
    ChannelClosed,
    /// The operation referenced a never-created or already-destroyed handle.
    UnknownHandle,
}

} // verus!
