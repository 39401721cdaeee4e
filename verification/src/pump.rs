//! The connection pump: what one connection does with each thing that happens
//! to it, from its first read until its socket is released.

use crate::error::ChatError;
use crate::hub::Hub;
use crate::json::{json_string_members, read_string_members};
use crate::protocol::{
    content_key, decode, members_view, sender_key, wire_text, ChatMessage, MessageText,
};
use crate::text::{decode_lossy, trim, trimmed, utf8_lossy};
use vstd::prelude::*;

verus! {

/// Seconds a connection may stay silent before it is closed.
pub const IDLE_TIMEOUT_SECS: u64 = 30;

/// Where a connection stands in its life.
#[derive(Debug, Clone, Copy, PartialEq, Eq, Structural)]
pub enum Phase {
    /// Reading from the peer and forwarding what the hub delivers.
    Active,
    /// Done with the peer; the socket and the subscription are to be released.
    Closing,
    /// Released. Nothing follows.
    Closed,
}

/// What can happen to an active connection.
#[derive(Debug, PartialEq, Eq)]
pub enum Event {
    /// A read completed with these bytes. No bytes: the peer has closed.
    Received(Vec<u8>),
    /// The idle period passed without a byte.
    ReadTimeout,
    /// A read failed.
    ReadFailed,
    /// The hub delivered this text.
    Delivered(String),
    /// The hub dropped this many messages the connection was too slow for.
    Lagged(u64),
    /// The hub is gone.
    HubClosed,
    /// The write that was asked for failed.
    WriteFailed,
}

/// An event as plain values.
pub enum EventView {
    Received(Seq<u8>),
    ReadTimeout,
    ReadFailed,
    Delivered(Seq<char>),
    Lagged(u64),
    HubClosed,
    WriteFailed,
}

impl View for Event {
    type V = EventView;

    open spec fn view(&self) -> EventView {
        match self {
            Event::Received(bytes) => EventView::Received(bytes@),
            Event::ReadTimeout => EventView::ReadTimeout,
            Event::ReadFailed => EventView::ReadFailed,
            Event::Delivered(text) => EventView::Delivered(text@),
            Event::Lagged(n) => EventView::Lagged(*n),
            Event::HubClosed => EventView::HubClosed,
            Event::WriteFailed => EventView::WriteFailed,
        }
    }
}

/// What the owner of the socket does next.
#[derive(Debug, PartialEq, Eq)]
pub enum Action {
    /// Nothing: wait for the next event.
    Wait,
    /// Nothing: this text has gone to the hub.
    Published(String),
    /// Write this text to the socket as it is.
    Write(String),
    /// Let the log know that the connection missed this many messages.
    ReportLag(u64),
    /// Release the socket and the subscription, then close the pump.
    Release,
    /// Nothing is left to do.
    Finished,
}

/// An action as plain values.
pub enum ActionView {
    Wait,
    Published(Seq<char>),
    Write(Seq<char>),
    ReportLag(u64),
    Release,
    Finished,
}

impl View for Action {
    type V = ActionView;

    open spec fn view(&self) -> ActionView {
        match self {
            Action::Wait => ActionView::Wait,
            Action::Published(text) => ActionView::Published(text@),
            Action::Write(text) => ActionView::Write(text@),
            Action::ReportLag(n) => ActionView::ReportLag(*n),
            Action::Release => ActionView::Release,
            Action::Finished => ActionView::Finished,
        }
    }
}

/// What a broadcast looks like on the wire: the peer that said it, a colon and
/// a space, and the message in its structured form.
pub open spec fn outgoing(peer: Seq<char>, m: MessageText) -> Seq<char> {
    peer + ": "@ + wire_text(m)
}

/// The text that goes to the hub for a message from a peer.
pub fn broadcast_text(peer: &str, message: &ChatMessage) -> (r: Result<String, ChatError>)
    ensures
        r is Ok,
        r->Ok_0@ == outgoing(peer@, message@),
{
    let json = message.to_json()?;
    let mut text = String::from_str(peer);
    text.append(": ");
    text.append(json.as_str());
    Ok(text)
}

/// What becomes of an inbound payload.
#[derive(Debug, PartialEq, Eq)]
pub enum Intake {
    /// Whitespace only: nothing to do.
    Ignore,
    /// A message: this text goes to the hub.
    Publish(String),
    /// No message: the connection ends with this error.
    Reject(ChatError),
}

/// An intake as plain values.
pub enum IntakeView {
    Ignore,
    Publish(Seq<char>),
    Reject(ChatError),
}

impl View for Intake {
    type V = IntakeView;

    open spec fn view(&self) -> IntakeView {
        match self {
            Intake::Ignore => IntakeView::Ignore,
            Intake::Publish(text) => IntakeView::Publish(text@),
            Intake::Reject(e) => IntakeView::Reject(*e),
        }
    }
}

/// What becomes of a trimmed payload from `peer`, given the members that the
/// JSON reader found in it: an empty one is ignored, a message is broadcast
/// under the peer's name, anything else is rejected.
pub open spec fn intake(
    peer: Seq<char>,
    text: Seq<char>,
    members: Option<(Seq<char>, Seq<char>)>,
) -> IntakeView {
    if text.len() == 0 {
        IntakeView::Ignore
    } else {
        match decode(text, members) {
            Ok(m) => IntakeView::Publish(outgoing(peer, m)),
            Err(e) => IntakeView::Reject(e),
        }
    }
}

/// What becomes of the bytes of one read.
pub open spec fn intake_of(peer: Seq<char>, bytes: Seq<u8>) -> IntakeView {
    let text = trim(utf8_lossy(bytes));
    intake(peer, text, json_string_members(text, sender_key(), content_key()))
}

/// Decides on a trimmed payload for which the JSON reader has been asked.
pub fn intake_with(peer: &str, text: &str, members: Option<(String, String)>) -> (r: Intake)
    ensures
        r@ == intake(peer@, text@, members_view(members)),
{
    if text.is_empty() {
        return Intake::Ignore;
    }
    match ChatMessage::decode_with(text, members) {
        Ok(message) => match broadcast_text(peer, &message) {
            Ok(out) => Intake::Publish(out),
            Err(e) => Intake::Reject(e),
        },
        Err(e) => Intake::Reject(e),
    }
}

/// Decides on the bytes of one read.
pub fn intake_bytes(peer: &str, bytes: &[u8]) -> (r: Intake)
    ensures
        r@ == intake_of(peer@, bytes@),
{
    let payload = decode_lossy(bytes);
    let text = trimmed(payload.as_str());
    if text.as_str().is_empty() {
        return Intake::Ignore;
    }
    let members = read_string_members(text.as_str(), "sender", "content");
    intake_with(peer, text.as_str(), members)
}

/// A pump as plain values.
pub struct PumpView {
    /// The peer's address, which tags what the connection broadcasts.
    pub peer: Seq<char>,
    pub phase: Phase,
    /// Why the connection ended, where it did not end in good order.
    pub failure: Option<ChatError>,
    /// The channel of the hub that the connection publishes into.
    pub channel: int,
}

impl PumpView {
    /// Only a connection that has ended can have failed.
    pub open spec fn well_formed(self) -> bool {
        self.phase is Active ==> self.failure is None
    }

    /// The same connection on its way out.
    pub open spec fn closing(self, failure: Option<ChatError>) -> PumpView {
        PumpView { phase: Phase::Closing, failure, ..self }
    }

    /// The same connection after its release.
    pub open spec fn closed(self) -> PumpView {
        PumpView { phase: Phase::Closed, ..self }
    }

    /// What a connection is at its start: active, under the peer's name,
    /// publishing into this channel.
    pub open spec fn fresh(peer: Seq<char>, channel: int) -> PumpView {
        PumpView { peer, phase: Phase::Active, failure: None, channel }
    }
}

/// What a connection does once the hub has answered its publish of `text`:
/// it goes on where the hub took the text, and ends in good order where the
/// hub had nobody left to take it. A connection that has ended stays as it is.
pub open spec fn settle(s: PumpView, text: Seq<char>, accepted: bool) -> (PumpView, ActionView) {
    match s.phase {
        Phase::Closing => (s, ActionView::Release),
        Phase::Closed => (s, ActionView::Finished),
        Phase::Active => if accepted {
            (s, ActionView::Published(text))
        } else {
            (s.closing(None), ActionView::Release)
        },
    }
}

/// One step of a connection: its state after an event, and what its owner is
/// asked to do. `accepted` says whether the hub took what the connection
/// published, and counts only where the event is a read that holds a message.
///
/// An active connection ends on a read without bytes, a timeout, a failed read
/// or write, a payload that is no message, and the end of the hub. It goes on
/// after a payload of whitespace, a broadcast of its own, a delivery, which it
/// writes out unchanged, and a lag. A connection that has ended stays as it is.
pub open spec fn step(s: PumpView, e: EventView, accepted: bool) -> (PumpView, ActionView) {
    match s.phase {
        Phase::Closing => (s, ActionView::Release),
        Phase::Closed => (s, ActionView::Finished),
        Phase::Active => match e {
            EventView::Received(bytes) => if bytes.len() == 0 {
                (s.closing(None), ActionView::Release)
            } else {
                match intake_of(s.peer, bytes) {
                    IntakeView::Ignore => (s, ActionView::Wait),
                    IntakeView::Publish(text) => settle(s, text, accepted),
                    IntakeView::Reject(error) => (s.closing(Some(error)), ActionView::Release),
                }
            },
            EventView::ReadTimeout => (
                s.closing(Some(ChatError::ReadTimeout)),
                ActionView::Release,
            ),
            EventView::ReadFailed => (s.closing(Some(ChatError::ReadFailed)), ActionView::Release),
            EventView::Delivered(text) => (s, ActionView::Write(text)),
            EventView::Lagged(n) => (s, ActionView::ReportLag(n)),
            EventView::HubClosed => (s.closing(None), ActionView::Release),
            EventView::WriteFailed => (
                s.closing(Some(ChatError::WriteFailed)),
                ActionView::Release,
            ),
        },
    }
}

/// How a connection ends: in good order, or with the error that ended it.
pub open spec fn outcome(failure: Option<ChatError>) -> Result<(), ChatError> {
    match failure {
        Some(error) => Err(error),
        None => Ok(()),
    }
}

/// The pump of one connection.
pub struct Pump {
    peer: String,
    hub: Hub,
    phase: Phase,
    failure: Option<ChatError>,
}

impl View for Pump {
    type V = PumpView;

    closed spec fn view(&self) -> PumpView {
        PumpView {
            peer: self.peer@,
            phase: self.phase,
            failure: self.failure,
            channel: self.hub.channel(),
        }
    }
}

impl Pump {
    /// The pump of a connection that has just been accepted from `peer`, which
    /// publishes through `hub`.
    pub fn new(peer: String, hub: Hub) -> (pump: Pump)
        ensures
            pump@ == PumpView::fresh(peer@, hub.channel()),
            pump@.well_formed(),
    {
        Pump { peer, hub, phase: Phase::Active, failure: None }
    }

    /// Where the connection stands.
    pub fn phase(&self) -> (phase: Phase)
        ensures
            phase == self@.phase,
    {
        self.phase
    }

    /// Why the connection ended, if it failed.
    pub fn failure(&self) -> (failure: Option<ChatError>)
        ensures
            failure == self@.failure,
    {
        self.failure
    }

    /// The peer's address.
    pub fn peer(&self) -> (peer: &str)
        ensures
            peer@ == self@.peer,
    {
        self.peer.as_str()
    }

    fn begin_close(&mut self, failure: Option<ChatError>) -> (action: Action)
        ensures
            final(self)@ == old(self)@.closing(failure),
            action@ == ActionView::Release,
    {
        self.phase = Phase::Closing;
        self.failure = failure;
        Action::Release
    }

    /// Takes the hub's answer to the publish of `text`.
    pub fn settle(&mut self, text: String, answer: Result<usize, ChatError>) -> (action: Action)
        ensures
            (final(self)@, action@) == settle(old(self)@, text@, answer is Ok),
    {
        match self.phase {
            Phase::Closing => Action::Release,
            Phase::Closed => Action::Finished,
            Phase::Active => match answer {
                Ok(_) => Action::Published(text),
                Err(_) => self.begin_close(None),
            },
        }
    }

    fn on_received(&mut self, bytes: Vec<u8>) -> (action: Action)
        requires
            old(self)@.phase is Active,
        ensures
            (final(self)@, action@) == step(old(self)@, EventView::Received(bytes@), true) || (
            final(self)@, action@) == step(old(self)@, EventView::Received(bytes@), false),
    {
        if bytes.len() == 0 {
            return self.begin_close(None);
        }
        match intake_bytes(self.peer.as_str(), bytes.as_slice()) {
            Intake::Ignore => Action::Wait,
            Intake::Publish(text) => {
                let answer = self.hub.publish(text.clone());
                self.settle(text, answer)
            },
            Intake::Reject(error) => self.begin_close(Some(error)),
        }
    }

    /// Takes one event and says what to do about it.
    pub fn on_event(&mut self, event: Event) -> (action: Action)
        ensures
            (final(self)@, action@) == step(old(self)@, event@, true) || (final(self)@, action@)
                == step(old(self)@, event@, false),
            old(self)@.well_formed() ==> final(self)@.well_formed(),
    {
        match self.phase {
            Phase::Closing => Action::Release,
            Phase::Closed => Action::Finished,
            Phase::Active => match event {
                Event::Received(bytes) => self.on_received(bytes),
                Event::ReadTimeout => self.begin_close(Some(ChatError::ReadTimeout)),
                Event::ReadFailed => self.begin_close(Some(ChatError::ReadFailed)),
                Event::Delivered(text) => Action::Write(text),
                Event::Lagged(n) => Action::ReportLag(n),
                Event::HubClosed => self.begin_close(None),
                Event::WriteFailed => self.begin_close(Some(ChatError::WriteFailed)),
            },
        }
    }

    /// Ends the connection once its socket is released, and says how it went.
    pub fn close(&mut self) -> (r: Result<(), ChatError>)
        ensures
            final(self)@ == old(self)@.closed(),
            r == outcome(old(self)@.failure),
    {
        self.phase = Phase::Closed;
        match self.failure {
            Some(error) => Err(error),
            None => Ok(()),
        }
    }
}

} // verus!
