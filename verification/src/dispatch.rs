//! Command/response dispatch: building request frames, decoding replies
//! by the kind that was sent, and the connection-mode state machine.
//!
//! The protocol has no request identifiers: replies correlate with
//! requests purely by strict send/receive alternation, so the dispatcher
//! is a pair of pure steps — produce the bytes of one request, then decode
//! the payload of the one reply — that the caller runs around its own
//! blocking socket I/O.
//!
//! A connection starts in request/response mode and, on a successful
//! subscription acknowledgement, moves for good into event-stream mode:
//! every later frame is an event notification, so the session refuses to
//! build further command requests once subscribed.

use vstd::prelude::*;
use crate::frame::frame_bytes;
use crate::frame::encode_frame;
use crate::registry::{reply_decodes_as, response_to_json};
use crate::types::{DecodeError, Event, Message, Response, event_name, message_code};

verus! {

/// The separator between two event names in a subscription payload: a
/// comma and a space.
pub open spec fn sub_separator() -> Seq<u8> {
    seq![44u8, 32u8]
}

/// An event name in its quotes.
pub open spec fn quoted_name(e: Event) -> Seq<u8> {
    seq![34u8] + event_name(e) + seq![34u8]
}

/// The joined quoted names of the first `n` events, in caller order, with
/// duplicates kept.
pub open spec fn sub_items(evs: Seq<Event>, n: int) -> Seq<u8>
    decreases n,
{
    if n <= 0 {
        Seq::empty()
    } else if n == 1 {
        quoted_name(evs[0])
    } else {
        sub_items(evs, n - 1) + sub_separator() + quoted_name(evs[n - 1])
    }
}

/// The whole subscription request payload: a JSON array of the events'
/// canonical names, in caller order, duplicates not deduplicated.
pub open spec fn subscribe_payload_bytes(evs: Seq<Event>) -> Seq<u8> {
    seq![91u8] + sub_items(evs, evs.len() as int) + seq![93u8]
}

/// No canonical event name is longer than 15 bytes, so each joined item
/// costs at most 19 bytes of payload.
pub proof fn lemma_sub_items_len(evs: Seq<Event>, n: int)
    requires
        0 <= n <= evs.len(),
    ensures
        sub_items(evs, n).len() <= 19 * n,
    decreases n,
{
    if n > 0 {
        lemma_sub_items_len(evs, n - 1);
    }
}

/// Build the subscription request payload for `events`.
pub fn subscribe_payload(events: &Vec<Event>) -> (r: Vec<u8>)
    ensures
        r@ == subscribe_payload_bytes(events@),
        r@.len() <= 2 + 19 * events@.len(),
{
    let mut out: Vec<u8> = Vec::new();
    out.push(91);
    let mut i: usize = 0;
    while i < events.len()
        invariant
            0 <= i <= events@.len(),
            out@ == seq![91u8] + sub_items(events@, i as int),
        decreases events@.len() - i,
    {
        if i > 0 {
            out.push(44);
            out.push(32);
        }
        out.push(34);
        let mut name = events[i].name_bytes();
        out.append(&mut name);
        out.push(34);
        proof {
            assert(out@ =~= seq![91u8] + sub_items(events@, i + 1));
        }
        i += 1;
    }
    out.push(93);
    proof {
        lemma_sub_items_len(events@, events@.len() as int);
        assert(out@ =~= subscribe_payload_bytes(events@));
    }
    out
}

/// Whether a send-and-receive round with this kind and outcome is a
/// successful subscription.
pub open spec fn subscribe_succeeded(kind: Message, r: Result<Response, DecodeError>) -> bool {
    kind == Message::Subscribe && match r {
        Ok(Response::Subscribe(a)) => a.success,
        _ => false,
    }
}

/// The two modes of one connection.
#[derive(Debug, Clone, Copy, PartialEq, Eq, Structural)]
pub enum Mode {
    /// Request/response mode: commands may be sent and their replies
    /// decoded by request kind.
    Idle,
    /// Event-stream mode, entered by a successful subscription and never
    /// left: every further frame is an event notification.
    Subscribed,
}

/// Refusals of the session state machine.
#[derive(Debug, Clone, Copy, PartialEq, Eq, Structural)]
pub enum ModeError {
    /// The connection is in event-stream mode; no further command request
    /// may be built on it.
    Subscribed,
}

/// The per-connection state machine over the two modes.
pub struct Session {
    mode: Mode,
}

impl View for Session {
    type V = Mode;

    closed spec fn view(&self) -> Mode {
        self.mode
    }
}

impl Session {
    /// A fresh session: request/response mode.
    pub fn new() -> (s: Session)
        ensures
            s@ == Mode::Idle,
    {
        Session { mode: Mode::Idle }
    }

    /// Whether the session has entered event-stream mode.
    pub fn is_subscribed(&self) -> (r: bool)
        ensures
            r == (self@ == Mode::Subscribed),
    {
        match self.mode {
            Mode::Subscribed => true,
            Mode::Idle => false,
        }
    }

    /// The bytes of one command request frame, or a refusal if the
    /// connection is already in event-stream mode.
    pub fn request_frame(&self, kind: Message, payload: &Vec<u8>) -> (r: Result<
        Vec<u8>,
        ModeError,
    >)
        requires
            payload@.len() <= u32::MAX,
        ensures
            match r {
                Ok(bytes) => self@ == Mode::Idle && bytes@ == frame_bytes(
                    message_code(kind),
                    payload@,
                ),
                Err(e) => self@ == Mode::Subscribed && e == ModeError::Subscribed,
            },
    {
        match self.mode {
            Mode::Subscribed => Err(ModeError::Subscribed),
            Mode::Idle => Ok(encode_frame(kind.to_u32(), payload)),
        }
    }

    /// The bytes of one subscription request frame, carrying the JSON
    /// array of the events' canonical names.
    pub fn subscribe_frame(&self, events: &Vec<Event>) -> (r: Result<Vec<u8>, ModeError>)
        requires
            events@.len() <= 100_000_000,
        ensures
            match r {
                Ok(bytes) => self@ == Mode::Idle && bytes@ == frame_bytes(
                    message_code(Message::Subscribe),
                    subscribe_payload_bytes(events@),
                ),
                Err(e) => self@ == Mode::Subscribed && e == ModeError::Subscribed,
            },
    {
        match self.mode {
            Mode::Subscribed => Err(ModeError::Subscribed),
            Mode::Idle => {
                let payload = subscribe_payload(events);
                Ok(encode_frame(Message::Subscribe.to_u32(), &payload))
            },
        }
    }

    /// Decode the one reply to a request just sent, by the kind that was
    /// sent, and note a successful subscription: that moves the session
    /// into event-stream mode for good; nothing ever moves it back.
    pub fn accept_reply(&mut self, sent: Message, payload: &Vec<u8>) -> (r: Result<
        Response,
        DecodeError,
    >)
        ensures
            reply_decodes_as(sent, payload@, r),
            final(self)@ == (if old(self)@ == Mode::Subscribed || subscribe_succeeded(sent, r) {
                Mode::Subscribed
            } else {
                Mode::Idle
            }),
    {
        let r = response_to_json(sent, payload);
        let became_subscribed = match (&sent, &r) {
            (Message::Subscribe, Ok(Response::Subscribe(a))) => a.success,
            _ => false,
        };
        if became_subscribed {
            self.mode = Mode::Subscribed;
        }
        r
    }
}

} // verus!
