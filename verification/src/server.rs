//! The acceptor: what the relay does with each outcome of an accept, and the
//! one hub that all its connections share.

use crate::error::ChatError;
use crate::hub::{channel_slots, Hub, Subscription, BACKLOG};
use crate::pump::{Pump, PumpView};
use vstd::prelude::*;

verus! {

/// The system's code for a descriptor table that is full, system-wide.
pub const ENFILE: i32 = 23;

/// The system's code for a descriptor table that is full, in this process.
pub const EMFILE: i32 = 24;

/// Why an accept did not yield a connection.
#[derive(Debug, Clone, Copy, PartialEq, Eq, Structural)]
pub enum AcceptFailure {
    /// The peer gave up before the connection was accepted.
    ConnectionAborted,
    /// The peer reset the connection.
    ConnectionReset,
    /// The connection was refused on the way.
    ConnectionRefused,
    /// The call was interrupted.
    Interrupted,
    /// Nothing was waiting to be accepted.
    WouldBlock,
    /// The attempt timed out.
    TimedOut,
    /// The system had no memory for one more connection.
    OutOfMemory,
    /// The process or the system has no descriptor left.
    DescriptorLimit,
    /// Anything else: the listening socket itself is at fault.
    Other,
}

impl AcceptFailure {
    /// Whether the failure concerns one attempt only, so that the next accept
    /// may succeed.
    pub open spec fn is_transient(self) -> bool {
        !(self is Other)
    }

    /// What a failure is that the system reports by a code alone: the two
    /// codes for a full descriptor table concern one attempt, any other is the
    /// listener's.
    pub open spec fn of_os_code(code: i32) -> AcceptFailure {
        if code == ENFILE || code == EMFILE {
            AcceptFailure::DescriptorLimit
        } else {
            AcceptFailure::Other
        }
    }

    /// Names a failure that the system reports by a code alone.
    pub fn from_os_code(code: i32) -> (failure: AcceptFailure)
        ensures
            failure == AcceptFailure::of_os_code(code),
    {
        if code == ENFILE || code == EMFILE {
            AcceptFailure::DescriptorLimit
        } else {
            AcceptFailure::Other
        }
    }

    /// Whether the next accept may succeed.
    pub fn transient(&self) -> (r: bool)
        ensures
            r == self.is_transient(),
    {
        match self {
            AcceptFailure::Other => false,
            _ => true,
        }
    }
}

/// The outcome of one accept.
#[derive(Debug, PartialEq, Eq)]
pub enum Accepted {
    /// A connection, from the peer at this address.
    Connected(String),
    /// No connection.
    Failed(AcceptFailure),
}

/// What the accept loop does with the outcome of one accept.
pub enum Admission {
    /// Serve the new connection with this pump and this subscription, in a
    /// task of its own, and accept again.
    Serve(Pump, Subscription),
    /// Report the failure and accept again.
    Retry(AcceptFailure),
    /// Stop accepting: the relay ends with this error.
    Stop(ChatError),
}

/// The outcome of an accept as plain values.
pub enum AcceptedView {
    Connected(Seq<char>),
    Failed(AcceptFailure),
}

impl View for Accepted {
    type V = AcceptedView;

    open spec fn view(&self) -> AcceptedView {
        match self {
            Accepted::Connected(peer) => AcceptedView::Connected(peer@),
            Accepted::Failed(failure) => AcceptedView::Failed(*failure),
        }
    }
}

/// An admission as plain values: of a connection to serve, the state of its
/// pump and the channel of its subscription.
pub enum AdmissionView {
    Serve(PumpView, int),
    Retry(AcceptFailure),
    Stop(ChatError),
}

impl View for Admission {
    type V = AdmissionView;

    open spec fn view(&self) -> AdmissionView {
        match self {
            Admission::Serve(pump, subscription) => AdmissionView::Serve(
                pump@,
                subscription.channel(),
            ),
            Admission::Retry(failure) => AdmissionView::Retry(*failure),
            Admission::Stop(error) => AdmissionView::Stop(*error),
        }
    }
}

/// The accept policy of an acceptor whose hub publishes into `channel`:
/// whether it goes on listening after an outcome, and what it asks for. A
/// connection is served by a fresh pump under the peer's address, which
/// publishes into the acceptor's channel, and by a subscription to that same
/// channel. A failure of one attempt is passed over. Any other failure ends
/// the acceptor, and an acceptor that has ended admits nothing.
pub open spec fn accept_policy(listening: bool, channel: int, accepted: AcceptedView) -> (
    bool,
    AdmissionView,
) {
    if !listening {
        (false, AdmissionView::Stop(ChatError::ListenerFailed))
    } else {
        match accepted {
            AcceptedView::Connected(peer) => (
                true,
                AdmissionView::Serve(PumpView::fresh(peer, channel), channel),
            ),
            AcceptedView::Failed(failure) => if failure.is_transient() {
                (true, AdmissionView::Retry(failure))
            } else {
                (false, AdmissionView::Stop(ChatError::ListenerFailed))
            },
        }
    }
}

/// The accepting side of the relay.
pub struct Acceptor {
    hub: Hub,
    listening: bool,
}

impl Acceptor {
    /// Whether the acceptor still takes connections.
    pub closed spec fn listening(&self) -> bool {
        self.listening
    }

    /// An acceptor with a hub of its own, ready to take connections.
    pub fn new() -> (acceptor: Acceptor)
        ensures
            acceptor.listening(),
            acceptor.hub_backlog() == BACKLOG,
            channel_slots(acceptor.channel()) >= BACKLOG,
    {
        Acceptor { hub: Hub::new(), listening: true }
    }

    /// Whether the acceptor still takes connections.
    pub fn is_listening(&self) -> (r: bool)
        ensures
            r == self.listening(),
    {
        self.listening
    }

    /// The backlog of the acceptor's hub.
    pub closed spec fn hub_backlog(&self) -> usize {
        self.hub.backlog()
    }

    /// The channel of the acceptor's hub.
    pub closed spec fn channel(&self) -> int {
        self.hub.channel()
    }

    /// The hub that the connections of this acceptor share.
    pub fn hub(&self) -> (hub: &Hub)
        ensures
            hub.channel() == self.channel(),
            hub.backlog() == self.hub_backlog(),
    {
        &self.hub
    }

    /// Decides on the outcome of one accept; a connection gets a subscription
    /// that is taken now, before anything it could miss is published.
    pub fn on_accept(&mut self, accepted: Accepted) -> (admission: Admission)
        ensures
            (final(self).listening(), admission@) == accept_policy(
                old(self).listening(),
                old(self).channel(),
                accepted@,
            ),
            final(self).channel() == old(self).channel(),
            final(self).hub_backlog() == old(self).hub_backlog(),
    {
        if !self.listening {
            return Admission::Stop(ChatError::ListenerFailed);
        }
        match accepted {
            Accepted::Connected(peer) => {
                let subscription = self.hub.subscribe();
                let pump = Pump::new(peer, self.hub.handle());
                Admission::Serve(pump, subscription)
            },
            Accepted::Failed(failure) => {
                if failure.transient() {
                    Admission::Retry(failure)
                } else {
                    self.listening = false;
                    Admission::Stop(ChatError::ListenerFailed)
                }
            },
        }
    }
}

} // verus!
