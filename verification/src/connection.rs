//! The life of one connection: handshake, one read, one response, the end.
//!
//! A connection does no I/O of its own. The server performs each [`Action`]
//! and reports what came of it as an [`Event`]; [`Connection::step`] decides
//! what follows. The rotator is touched in one place only, where a request
//! has arrived, and there selection and advance happen within a single step.

use crate::reason::{canonical_reason, is_printable};
use crate::response::{render, rendered, response_bytes};
use crate::rotation::{RotationState, Rotator};
use vstd::prelude::*;
use vstd::string::StringSliceAdditionalSpecFns;

verus! {

/// The size of the buffer for the one read: a request is what arrives in a
/// single read of at most this many bytes.
pub const READ_LIMIT: usize = 2048;

/// How a connection ended.
#[derive(Debug, Clone, Copy, PartialEq, Eq, Structural)]
pub enum Outcome {
    /// The response went out in full.
    Served,
    /// The TLS handshake did not complete.
    HandshakeFailed,
    /// The read failed.
    ReadFailed,
    /// The peer closed the stream without sending anything.
    EndOfStream,
    /// The selected entry carries a status without a canonical reason
    /// phrase; nothing was written.
    UnknownStatus { status: u16 },
    /// The response could not be written in full.
    WriteFailed,
    /// An event was reported that the connection was not waiting for.
    Unexpected,
}

/// Where a connection stands.
#[derive(Debug, Clone, Copy, PartialEq, Eq, Structural)]
pub enum Phase {
    /// Waiting for the TLS handshake.
    Handshake,
    /// Waiting for the one read.
    Read,
    /// Waiting for the response to be written.
    Write,
    /// Done; nothing more is read or written.
    Closed { outcome: Outcome },
}

/// What the server reports to a connection.
#[derive(Debug, PartialEq, Eq)]
pub enum Event {
    HandshakeDone,
    HandshakeFailed,
    /// The read returned these bytes; none at all means end of stream.
    Received { request: Vec<u8> },
    ReadFailed,
    Written,
    WriteFailed,
}

/// What the server is to do next for a connection.
#[derive(Debug, PartialEq, Eq)]
pub enum Action {
    /// Perform the TLS handshake.
    Handshake,
    /// Read once, at most `limit` bytes.
    Read { limit: usize },
    /// Write these bytes, flush, and shut the stream down.
    Write { response: Vec<u8> },
    /// Drop the connection; it ended with `outcome`.
    Close { outcome: Outcome },
}

/// An [`Action`] with its bytes as a mathematical sequence.
pub enum ActionView {
    Handshake,
    Read { limit: usize },
    Write { response: Seq<u8> },
    Close { outcome: Outcome },
}

impl View for Action {
    type V = ActionView;

    open spec fn view(&self) -> ActionView {
        match *self {
            Action::Handshake => ActionView::Handshake,
            Action::Read { limit } => ActionView::Read { limit },
            Action::Write { response } => ActionView::Write { response: response@ },
            Action::Close { outcome } => ActionView::Close { outcome },
        }
    }
}

/// What one step makes of a connection and of the rotation.
pub struct Transition {
    pub phase: Phase,
    pub action: ActionView,
    pub rotation: RotationState,
}

/// Whether the bytes of one read count as a request. Their content is of no
/// account: anything from one byte up to the read limit is a request.
pub open spec fn is_request(bytes: Seq<u8>) -> bool {
    0 < bytes.len() <= READ_LIMIT
}

/// Whether `event` reports a read that brought a request.
pub open spec fn brings_request(event: Event) -> bool {
    event matches Event::Received { request } && is_request(request@)
}

/// The end of a connection: the rotation stays as it is.
pub open spec fn closing(outcome: Outcome, rotation: RotationState) -> Transition {
    Transition {
        phase: Phase::Closed { outcome },
        action: ActionView::Close { outcome },
        rotation,
    }
}

/// The answer to a request: the selected entry is rendered and goes out, and
/// the rotation has advanced. An entry whose status has no canonical reason
/// phrase ends the connection with nothing written; its turn is used up all
/// the same.
pub open spec fn answering(rotation: RotationState) -> Transition {
    match rendered(rotation.selected()) {
        Ok(response) => Transition {
            phase: Phase::Write,
            action: ActionView::Write { response },
            rotation: rotation.advanced(),
        },
        Err(error) => closing(
            Outcome::UnknownStatus { status: error.status },
            rotation.advanced(),
        ),
    }
}

/// The rule of the connection: what follows from `event` in `phase`.
///
/// The order is fixed: handshake, read, write, closed. A failure ends the
/// connection, and so does an event that the phase was not waiting for. A
/// closed connection stays closed with the outcome it has.
pub open spec fn transition(phase: Phase, event: Event, rotation: RotationState) -> Transition {
    match phase {
        Phase::Handshake => match event {
            Event::HandshakeDone => Transition {
                phase: Phase::Read,
                action: ActionView::Read { limit: READ_LIMIT },
                rotation,
            },
            Event::HandshakeFailed => closing(Outcome::HandshakeFailed, rotation),
            _ => closing(Outcome::Unexpected, rotation),
        },
        Phase::Read => match event {
            Event::Received { request } => if request@.len() == 0 {
                closing(Outcome::EndOfStream, rotation)
            } else if is_request(request@) {
                answering(rotation)
            } else {
                closing(Outcome::Unexpected, rotation)
            },
            Event::ReadFailed => closing(Outcome::ReadFailed, rotation),
            _ => closing(Outcome::Unexpected, rotation),
        },
        Phase::Write => match event {
            Event::Written => closing(Outcome::Served, rotation),
            Event::WriteFailed => closing(Outcome::WriteFailed, rotation),
            _ => closing(Outcome::Unexpected, rotation),
        },
        Phase::Closed { outcome } => closing(outcome, rotation),
    }
}

/// The response that goes out while no entry is configured.
pub open spec fn default_wire() -> Seq<u8> {
    response_bytes(200, "OK".spec_bytes(), "Hello".spec_bytes())
}

/// One connection, from the accepted stream to its end.
pub struct Connection {
    phase: Phase,
}

impl View for Connection {
    type V = Phase;

    closed spec fn view(&self) -> Phase {
        self.phase
    }
}

fn close(outcome: Outcome) -> (end: (Phase, Action))
    ensures
        end.0 == (Phase::Closed { outcome }),
        end.1@ == (ActionView::Close { outcome }),
{
    (Phase::Closed { outcome }, Action::Close { outcome })
}

impl Connection {
    /// A connection on a stream that was just accepted, and the first thing
    /// to do for it: the handshake.
    pub fn open() -> (start: (Connection, Action))
        ensures
            start.0@ == Phase::Handshake,
            start.1@ == ActionView::Handshake,
    {
        (Connection { phase: Phase::Handshake }, Action::Handshake)
    }

    /// Where the connection stands.
    pub fn phase(&self) -> (phase: Phase)
        ensures
            phase == self@,
    {
        self.phase
    }

    /// Takes in what the server reports and says what to do next, as
    /// [`transition`] rules.
    ///
    /// The rotator is needed for the length of this call only. Selection and
    /// advance both happen inside it, so a server that holds the rotator
    /// exclusively while it calls `step` gives no two connections the same
    /// cursor.
    pub fn step(&mut self, event: Event, rotator: &mut Rotator) -> (action: Action)
        ensures
            final(self)@ == transition(old(self)@, event, old(rotator)@).phase,
            action@ == transition(old(self)@, event, old(rotator)@).action,
            final(rotator)@ == transition(old(self)@, event, old(rotator)@).rotation,
            action is Write ==> is_printable(
                canonical_reason(old(rotator)@.selected().status).unwrap(),
            ),
            old(self)@ == Phase::Read && brings_request(event) && old(rotator)@.entries.len() == 0
                ==> action@ == (ActionView::Write { response: default_wire() }),
    {
        let step = match self.phase {
            Phase::Handshake => match event {
                Event::HandshakeDone => (Phase::Read, Action::Read { limit: READ_LIMIT }),
                Event::HandshakeFailed => close(Outcome::HandshakeFailed),
                _ => close(Outcome::Unexpected),
            },
            Phase::Read => match event {
                Event::Received { request } => {
                    if request.len() == 0 {
                        close(Outcome::EndOfStream)
                    } else if request.len() <= READ_LIMIT {
                        let entry = rotator.next();
                        match render(&entry) {
                            Ok(response) => (Phase::Write, Action::Write { response }),
                            Err(error) => close(Outcome::UnknownStatus { status: error.status }),
                        }
                    } else {
                        close(Outcome::Unexpected)
                    }
                },
                Event::ReadFailed => close(Outcome::ReadFailed),
                _ => close(Outcome::Unexpected),
            },
            Phase::Write => match event {
                Event::Written => close(Outcome::Served),
                Event::WriteFailed => close(Outcome::WriteFailed),
                _ => close(Outcome::Unexpected),
            },
            Phase::Closed { outcome } => close(outcome),
        };
        self.phase = step.0;
        step.1
    }
}

/// How far a connection has come on its way from handshake to the end.
pub open spec fn progress(phase: Phase) -> nat {
    match phase {
        Phase::Handshake => 0,
        Phase::Read => 1,
        Phase::Write => 2,
        Phase::Closed { .. } => 3,
    }
}

/// Whether a step answers a request: the connection was waiting for its read
/// and the read brought a request.
pub open spec fn answers(phase: Phase, event: Event) -> bool {
    phase == Phase::Read && brings_request(event)
}

/// A connection is strictly linear. Each step takes an open connection
/// forward, to the phase that follows or to its end, never back and never
/// round again; a closed connection keeps its outcome. The action fits the
/// phase that was reached, and a second handshake is never asked for.
pub proof fn lemma_strictly_linear(phase: Phase, event: Event, rotation: RotationState)
    ensures
        phase is Closed ==> transition(phase, event, rotation).phase == phase,
        !(phase is Closed) ==> progress(transition(phase, event, rotation).phase) > progress(
            phase,
        ),
        transition(phase, event, rotation).phase is Closed || progress(
            transition(phase, event, rotation).phase,
        ) == progress(phase) + 1,
        match transition(phase, event, rotation).phase {
            Phase::Handshake => false,
            Phase::Read => transition(phase, event, rotation).action is Read,
            Phase::Write => transition(phase, event, rotation).action is Write,
            Phase::Closed { outcome } => transition(phase, event, rotation).action == (
            ActionView::Close { outcome }),
        },
{
}

/// The rotation moves on by one selection where a request is answered, and
/// nowhere else: no handshake, failure, end of stream or write touches it.
pub proof fn lemma_rotation_moves_with_requests_only(
    phase: Phase,
    event: Event,
    rotation: RotationState,
)
    ensures
        answers(phase, event) ==> transition(phase, event, rotation).rotation
            == rotation.advanced(),
        !answers(phase, event) ==> transition(phase, event, rotation).rotation == rotation,
{
}

/// A connection whose handshake fails is closed at once and leaves the
/// rotation as it found it, so that the step of any other connection comes
/// out as it would have without it.
pub proof fn lemma_failed_handshake_is_isolated(
    rotation: RotationState,
    phase: Phase,
    event: Event,
)
    ensures
        transition(Phase::Handshake, Event::HandshakeFailed, rotation) == closing(
            Outcome::HandshakeFailed,
            rotation,
        ),
        transition(
            phase,
            event,
            transition(Phase::Handshake, Event::HandshakeFailed, rotation).rotation,
        ) == transition(phase, event, rotation),
{
}

/// What a request says is of no account: any two requests are answered
/// alike.
pub proof fn lemma_request_content_ignored(first: Event, second: Event, rotation: RotationState)
    requires
        brings_request(first),
        brings_request(second),
    ensures
        transition(Phase::Read, first, rotation) == transition(Phase::Read, second, rotation),
{
}

/// A response goes out only in answer to a request, and what goes out is the
/// selected entry, head and body, under the canonical reason phrase of its
/// status.
pub proof fn lemma_response_is_the_selected_entry(
    phase: Phase,
    event: Event,
    rotation: RotationState,
)
    requires
        transition(phase, event, rotation).action is Write,
    ensures
        answers(phase, event),
        canonical_reason(rotation.selected().status) is Some,
        transition(phase, event, rotation).action == (ActionView::Write {
            response: response_bytes(
                rotation.selected().status,
                vstd::utf8::encode_utf8(canonical_reason(rotation.selected().status).unwrap()),
                rotation.selected().body,
            ),
        }),
{
}

/// A request that meets an entry whose status has no canonical reason phrase
/// is not answered at all: nothing is written, the connection is closed with
/// that status as its outcome, and the entry's turn is over.
pub proof fn lemma_unknown_status_fails_cleanly(event: Event, rotation: RotationState)
    requires
        brings_request(event),
        canonical_reason(rotation.selected().status) is None,
    ensures
        transition(Phase::Read, event, rotation) == closing(
            Outcome::UnknownStatus { status: rotation.selected().status },
            rotation.advanced(),
        ),
        !(transition(Phase::Read, event, rotation).action is Write),
{
}

/// The number of requests answered in a run of steps, whichever connections
/// the steps belong to.
pub open spec fn requests_answered(steps: Seq<(Phase, Event)>) -> nat
    decreases steps.len(),
{
    if steps.len() == 0 {
        0
    } else {
        requests_answered(steps.drop_last()) + if answers(steps.last().0, steps.last().1) {
            1nat
        } else {
            0nat
        }
    }
}

/// The rotation after a run of steps, taken one after another in the order
/// in which they reached the rotator.
pub open spec fn rotation_after(steps: Seq<(Phase, Event)>, rotation: RotationState)
    -> RotationState
    decreases steps.len(),
{
    if steps.len() == 0 {
        rotation
    } else {
        transition(
            steps.last().0,
            steps.last().1,
            rotation_after(steps.drop_last(), rotation),
        ).rotation
    }
}

/// However the steps of many connections interleave, the rotation counts the
/// answered requests and nothing else: each answered request has the cursor
/// to itself, and the next one finds it one further on.
pub proof fn lemma_interleaving(steps: Seq<(Phase, Event)>, rotation: RotationState)
    ensures
        rotation_after(steps, rotation) == rotation.after(requests_answered(steps)),
    decreases steps.len(),
{
    if steps.len() > 0 {
        let before = steps.drop_last();
        lemma_interleaving(before, rotation);
        crate::rotation::lemma_one_more(rotation, requests_answered(before));
    }
}

} // verus!
