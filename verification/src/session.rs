//! The session with the feature service: the handshake that opens it, and
//! the two sides that work once it is confirmed.
//!
//! Nothing here touches the network. The caller sends what these functions
//! hand out and hands in what it received.

use crate::descriptor::{DescriptorView, SessionDescriptor};
use crate::frame::{decode, decoded, DecodeError, FrameView};
use crate::json::{json_text, parse, parsed};
use crate::ring::{pushed, FeatureRing};
use crate::wire::{
    audio_frame_json, audio_frame_text, documents, request_json, request_text, Message,
    RequestKind,
};
use serde_json::Value;
use vstd::prelude::*;

verus! {

/// Why a handshake failed.
#[derive(Clone, Copy, PartialEq, Eq, Structural, Debug)]
pub enum ProtocolError {
    /// The reply was not text, or its text is not JSON.
    MalformedConfirmation,
    /// The transport failed before a reply came.
    Transport,
}

/// The text of the confirmation that `reply` carries, or why it confirms
/// nothing. `None` stands for a transport that failed while waiting.
pub open spec fn confirmation_of(reply: Option<Message>) -> Result<Seq<char>, ProtocolError> {
    match reply {
        None => Err(ProtocolError::Transport),
        Some(Message::Text(s)) => if parsed(s@) is Some {
            Ok(s@)
        } else {
            Err(ProtocolError::MalformedConfirmation)
        },
        Some(_) => Err(ProtocolError::MalformedConfirmation),
    }
}

/// What a received message gives the receiving side.
pub open spec fn received(message: Message) -> Result<FrameView, DecodeError> {
    match message {
        Message::Text(s) => decoded(s@),
        _ => Err(DecodeError::NotText),
    }
}

/// A session that has been requested and not yet confirmed.
pub struct Handshake {
    pub descriptor: SessionDescriptor,
    pub kind: RequestKind,
}

/// A confirmed session.
pub struct Session {
    descriptor: SessionDescriptor,
    confirmation: String,
}

/// What a confirmed session holds.
pub struct SessionView {
    pub descriptor: DescriptorView,
    pub confirmation: Seq<char>,
}

impl View for Session {
    type V = SessionView;

    closed spec fn view(&self) -> SessionView {
        SessionView { descriptor: self.descriptor@, confirmation: self.confirmation@ }
    }
}

/// The sending side of a confirmed session: it turns captured chunks into
/// messages until a send fails.
pub struct CaptureProducer {
    halted: bool,
}

/// The receiving side of a confirmed session: it turns messages into queued
/// frames until one cannot be decoded.
pub struct FeatureReceiver {
    fault: Option<DecodeError>,
}

/// The views of what a handshake gave.
pub open spec fn session_view(r: Result<Session, ProtocolError>) -> Result<
    SessionView,
    ProtocolError,
> {
    match r {
        Ok(session) => Ok(session@),
        Err(e) => Err(e),
    }
}

/// What confirming a handshake for `descriptor` with `reply` gives.
pub open spec fn confirmed(descriptor: DescriptorView, reply: Option<Message>) -> Result<
    SessionView,
    ProtocolError,
> {
    match confirmation_of(reply) {
        Ok(text) => Ok(SessionView { descriptor, confirmation: text }),
        Err(e) => Err(e),
    }
}

impl Handshake {
    /// The handshake for a session described by `descriptor`.
    pub fn new(descriptor: SessionDescriptor, kind: RequestKind) -> (r: Self)
        ensures
            r.descriptor == descriptor,
            r.kind == kind,
    {
        Handshake { descriptor, kind }
    }

    /// The text of the request to send.
    pub fn request(&self) -> (r: String)
        ensures
            r@ == json_text(request_json(self.kind, self.descriptor@)),
    {
        request_text(self.kind, &self.descriptor)
    }

    /// Ends the handshake with the one reply that came, or with `None` where
    /// the transport failed first. The session is confirmed exactly where
    /// the reply is text that holds a JSON document; nothing else is asked of
    /// that document.
    pub fn confirm(self, reply: Option<Message>) -> (r: Result<Session, ProtocolError>)
        ensures
            session_view(r) == confirmed(self.descriptor@, reply),
    {
        match reply {
            None => Err(ProtocolError::Transport),
            Some(Message::Text(text)) => match parse(text.as_str()) {
                Ok(_) => Ok(Session { descriptor: self.descriptor, confirmation: text }),
                Err(_) => Err(ProtocolError::MalformedConfirmation),
            },
            Some(_) => Err(ProtocolError::MalformedConfirmation),
        }
    }
}

impl Session {
    /// The descriptor that the service confirmed.
    pub fn descriptor(&self) -> (r: &SessionDescriptor)
        ensures
            r@ == self@.descriptor,
    {
        &self.descriptor
    }

    /// The text of the service's confirmation.
    pub fn confirmation(&self) -> (r: &str)
        ensures
            r@ == self@.confirmation,
    {
        self.confirmation.as_str()
    }

    /// Hands out the two sides of the session, both ready to work.
    pub fn split(self) -> (r: (CaptureProducer, FeatureReceiver))
        ensures
            !r.0.halted(),
            r.1.fault() is None,
    {
        (CaptureProducer { halted: false }, FeatureReceiver { fault: None })
    }
}

impl CaptureProducer {
    /// Whether a send has failed.
    pub closed spec fn halted(self) -> bool {
        self.halted
    }

    /// Whether a send has failed.
    pub fn is_halted(&self) -> (r: bool)
        ensures
            r == self.halted(),
    {
        self.halted
    }

    /// The text of the message for one captured chunk, each sample given as
    /// the JSON number that stands for it. `None` once a send has failed.
    pub fn frame(&self, samples: Vec<Value>) -> (r: Option<String>)
        ensures
            r is Some <==> !self.halted(),
            r is Some ==> r.unwrap()@ == json_text(audio_frame_json(documents(samples@))),
    {
        if self.halted {
            None
        } else {
            Some(audio_frame_text(samples))
        }
    }

    /// Records that a message could not be sent. The producer makes no
    /// message after that.
    pub fn send_failed(&mut self)
        ensures
            final(self).halted(),
    {
        self.halted = true;
    }
}

impl FeatureReceiver {
    /// The error that stopped the receiver, if one did.
    pub closed spec fn fault(self) -> Option<DecodeError> {
        self.fault
    }

    /// The error that stopped the receiver, if one did.
    pub fn stopped_by(&self) -> (r: Option<DecodeError>)
        ensures
            r == self.fault(),
    {
        self.fault
    }

    /// Takes one received message. Where it decodes, its frame joins the
    /// queue. Where it does not, the queue is left alone and the receiver
    /// stops: this call and every later one return that error.
    pub fn accept(&mut self, ring: &mut FeatureRing, message: &Message) -> (r: Result<
        (),
        DecodeError,
    >)
        ensures
            accepted(old(self).fault(), old(ring)@, *message, r, final(self).fault(), final(ring)@),
    {
        if let Some(e) = self.fault {
            return Err(e);
        }
        let outcome = match message {
            Message::Text(text) => decode(text.as_str()),
            _ => Err(DecodeError::NotText),
        };
        match outcome {
            Ok(frame) => {
                ring.push(frame);
                Ok(())
            },
            Err(e) => {
                self.fault = Some(e);
                Err(e)
            },
        }
    }
}

/// How `accept` answers and what it leaves behind: `fault` and `queue`
/// before the call, `r`, `fault_after` and `queue_after` after it.
pub open spec fn accepted(
    fault: Option<DecodeError>,
    queue: Seq<FrameView>,
    message: Message,
    r: Result<(), DecodeError>,
    fault_after: Option<DecodeError>,
    queue_after: Seq<FrameView>,
) -> bool {
    match fault {
        Some(e) => r == Err::<(), DecodeError>(e) && fault_after == fault && queue_after == queue,
        None => match received(message) {
            Ok(frame) => r is Ok && fault_after is None && queue_after == pushed(queue, frame),
            Err(e) => r == Err::<(), DecodeError>(e) && fault_after == Some(e) && queue_after == queue,
        },
    }
}

} // verus!
