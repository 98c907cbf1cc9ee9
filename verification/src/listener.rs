//! The listener's per-iteration logic as a state machine. Each bounded
//! receive attempt ends in one of three outcomes — a datagram arrived, the
//! wait timed out, or the receive call failed — and each outcome drives one
//! transition of the shared state: a well-formed datagram installs the decoded
//! reading and asserts connectivity; every other outcome clears connectivity
//! and leaves the last reading in place, so a consumer can suppress stale
//! readings without losing them.

use vstd::prelude::*;
use crate::codec::{spec_decode, decode_reading, READING_LEN};

verus! {

/// What one bounded receive attempt produced.
pub enum RecvEvent {
    /// A datagram arrived before the timeout; the payload as received.
    Datagram(Vec<u8>),
    /// No datagram arrived within the timeout window.
    Timeout,
    /// The receive call failed with an I/O error.
    Failure,
}

/// The mathematical image of a receive event.
pub enum RecvOutcome {
    Datagram(Seq<u8>),
    Timeout,
    Failure,
}

impl View for RecvEvent {
    type V = RecvOutcome;

    open spec fn view(&self) -> RecvOutcome {
        match self {
            RecvEvent::Datagram(p) => RecvOutcome::Datagram(p@),
            RecvEvent::Timeout => RecvOutcome::Timeout,
            RecvEvent::Failure => RecvOutcome::Failure,
        }
    }
}

/// A payload decodes to a reading only when it has exactly the wire length.
pub open spec fn valid_payload(p: Seq<u8>) -> bool {
    p.len() == READING_LEN
}

/// The state the listener shares with its consumer: the bit pattern of the
/// most recently decoded reading, and whether the most recent receive
/// attempt succeeded within its timeout.
#[derive(Clone, Copy, PartialEq, Eq, Structural)]
pub struct ListenerState {
    pub temperature: u32,
    pub connected: bool,
}

/// The state before any receive attempt: the zero-initialized default
/// reading, and no connectivity.
pub open spec fn initial_state() -> ListenerState {
    ListenerState { temperature: 0, connected: false }
}

/// One transition of the listener: a well-formed datagram installs its
/// decoded reading and asserts connectivity; a malformed datagram, a timeout
/// or a receive failure clears connectivity and keeps the reading.
pub open spec fn spec_step(s: ListenerState, e: RecvOutcome) -> ListenerState {
    match e {
        RecvOutcome::Datagram(p) => if valid_payload(p) {
            ListenerState { temperature: spec_decode(p), connected: true }
        } else {
            ListenerState { temperature: s.temperature, connected: false }
        },
        _ => ListenerState { temperature: s.temperature, connected: false },
    }
}

/// The state after replaying a whole sequence of receive outcomes from the
/// initial state.
pub open spec fn run(events: Seq<RecvOutcome>) -> ListenerState
    decreases events.len(),
{
    if events.len() == 0 {
        initial_state()
    } else {
        spec_step(run(events.drop_last()), events.last())
    }
}

/// The bit pattern of the last reading decoded from a well-formed datagram
/// in `events`, or the zero default if none arrived.
pub open spec fn last_reading(events: Seq<RecvOutcome>) -> u32
    decreases events.len(),
{
    if events.len() == 0 {
        0
    } else {
        match events.last() {
            RecvOutcome::Datagram(p) => if valid_payload(p) {
                spec_decode(p)
            } else {
                last_reading(events.drop_last())
            },
            _ => last_reading(events.drop_last()),
        }
    }
}

impl ListenerState {
    /// The state a listener starts in.
    pub fn new() -> (s: Self)
        ensures
            s == initial_state(),
    {
        ListenerState { temperature: 0, connected: false }
    }

    /// Apply one receive outcome to the state.
    pub fn step(&mut self, event: &RecvEvent)
        ensures
            *final(self) == spec_step(*old(self), event@),
    {
        match event {
            RecvEvent::Datagram(payload) => {
                if payload.len() == READING_LEN {
                    self.temperature = decode_reading(payload.as_slice());
                    self.connected = true;
                } else {
                    self.connected = false;
                }
            },
            _ => {
                self.connected = false;
            },
        }
    }
}

/// Law: whatever sequence of receive outcomes the listener saw, its
/// temperature is the last successfully decoded reading — timeouts, failures
/// and malformed datagrams after it change nothing of the value.
pub proof fn lemma_temperature_is_last_reading(events: Seq<RecvOutcome>)
    ensures
        run(events).temperature == last_reading(events),
    decreases events.len(),
{
    if events.len() > 0 {
        lemma_temperature_is_last_reading(events.drop_last());
    }
}

/// Law: before any datagram has been received the temperature is the
/// zero-initialized default and connectivity is off.
pub proof fn lemma_initial_default()
    ensures
        run(Seq::<RecvOutcome>::empty()) == initial_state(),
        run(Seq::<RecvOutcome>::empty()).temperature == 0,
        !run(Seq::<RecvOutcome>::empty()).connected,
{
}

/// Law: the stale-value policy. A successful receive asserts connectivity
/// and installs the decoded reading; a following timeout (or failure) clears
/// connectivity while the reading stays exactly as it was.
pub proof fn lemma_stale_value_policy(s: ListenerState, p: Seq<u8>, e: RecvOutcome)
    requires
        valid_payload(p),
        !(e is Datagram),
    ensures
        spec_step(s, RecvOutcome::Datagram(p)) == (ListenerState {
            temperature: spec_decode(p),
            connected: true,
        }),
        spec_step(spec_step(s, RecvOutcome::Datagram(p)), e) == (ListenerState {
            temperature: spec_decode(p),
            connected: false,
        }),
{
}

/// Law: every outcome that is not a well-formed datagram keeps the reading
/// and clears connectivity.
pub proof fn lemma_failure_preserves_reading(s: ListenerState, e: RecvOutcome)
    requires
        !(e matches RecvOutcome::Datagram(p) && valid_payload(p)),
    ensures
        spec_step(s, e).temperature == s.temperature,
        !spec_step(s, e).connected,
{
}

/// Law: of two datagrams received in a row, the later one wins, and
/// connectivity holds after each of the two.
pub proof fn lemma_latest_reading_wins(s: ListenerState, p1: Seq<u8>, p2: Seq<u8>)
    requires
        valid_payload(p1),
        valid_payload(p2),
    ensures
        spec_step(s, RecvOutcome::Datagram(p1)).connected,
        spec_step(spec_step(s, RecvOutcome::Datagram(p1)), RecvOutcome::Datagram(p2))
            == (ListenerState { temperature: spec_decode(p2), connected: true }),
{
}

/// Law: connectivity is asserted exactly when the most recent outcome was a
/// well-formed datagram, and then the temperature is that datagram's decoded
/// reading — a consumer that sees connectivity on is guaranteed the paired
/// reading was installed by the same receive.
pub proof fn lemma_connected_means_fresh(events: Seq<RecvOutcome>)
    ensures
        run(events).connected <==> (events.len() > 0 && (events.last()
            matches RecvOutcome::Datagram(p) && valid_payload(p))),
        run(events).connected ==> (events.last() matches RecvOutcome::Datagram(p)
            && run(events).temperature == spec_decode(p)),
{
}

} // verus!
