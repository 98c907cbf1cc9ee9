//! The thermometer handle: the state the listener task shares with the
//! display loop, held in a verified reader-writer lock, plus the stop signal
//! the listener polls once per iteration.
//!
//! The reading and the connectivity flag live under one lock, so the write
//! that asserts connectivity and the write that installs the paired reading
//! are indivisible: a reader can never see one without the other. The lock
//! carries the history of receive outcomes as ghost state, with the invariant
//! that the stored pair is exactly the state reached by replaying that
//! history — every observation, however the listener and the display loop
//! interleave, is a reachable state of the listener's state machine.

use vstd::prelude::*;
use vstd::rwlock::{RwLock, RwLockPredicate};
use crate::listener::{ListenerState, RecvEvent, RecvOutcome, run, spec_step, valid_payload};
use crate::codec::spec_decode;

verus! {

/// What one lock acquisition exposes: the shared state, and, as ghost data,
/// the sequence of receive outcomes that produced it.
pub struct SharedState {
    pub state: ListenerState,
    pub history: Ghost<Seq<RecvOutcome>>,
}

/// Lock invariant: the stored state is the replay of its history.
pub struct HistoryInv;

impl RwLockPredicate<SharedState> for HistoryInv {
    open spec fn inv(self, v: SharedState) -> bool {
        v.state == run(v.history@)
    }
}

/// Lock invariant of the stop signal: any boolean may be stored.
pub struct AnyBool;

impl RwLockPredicate<bool> for AnyBool {
    open spec fn inv(self, v: bool) -> bool {
        true
    }
}

/// A pair of a reading's bit pattern and a connectivity flag is observable
/// only if the listener's state machine can reach it.
pub open spec fn reachable(temperature: u32, connected: bool) -> bool {
    exists|events: Seq<RecvOutcome>|
        #[trigger] run(events) == (ListenerState { temperature, connected })
}

/// The smart thermometer: the latest reading and the connectivity flag,
/// shared between the listener task (their sole writer) and the display loop
/// (their sole reader), and the stop signal the listener polls.
pub struct SmartThermometer {
    shared: RwLock<SharedState, HistoryInv>,
    finished: RwLock<bool, AnyBool>,
}

impl SmartThermometer {
    /// A fresh thermometer: the zero-initialized default reading, no
    /// connectivity, no receive outcome recorded yet, stop not requested.
    pub fn new() -> (t: Self) {
        let state = ListenerState::new();
        proof {
            crate::listener::lemma_initial_default();
        }
        let shared = RwLock::new(
            SharedState { state, history: Ghost(Seq::empty()) },
            Ghost(HistoryInv),
        );
        let finished = RwLock::new(false, Ghost(AnyBool));
        SmartThermometer { shared, finished }
    }

    /// Record one receive outcome, and return the state pair it leaves
    /// behind: a well-formed datagram installs its decoded reading and
    /// asserts connectivity; anything else keeps the reading and clears
    /// connectivity.
    pub fn apply_event(&self, event: &RecvEvent) -> (r: (u32, bool))
        ensures
            reachable(r.0, r.1),
            (match event@ {
                RecvOutcome::Datagram(p) => if valid_payload(p) {
                    r.0 == spec_decode(p) && r.1
                } else {
                    !r.1
                },
                _ => !r.1,
            }),
    {
        let (cur, handle) = self.shared.acquire_write();
        let ghost h0 = cur.history@;
        let mut state = cur.state;
        state.step(event);
        let ghost h1 = h0.push(event@);
        proof {
            assert(h1.drop_last() =~= h0);
            assert(run(h1) == spec_step(run(h0), event@));
            assert(run(h1) == (ListenerState {
                temperature: state.temperature,
                connected: state.connected,
            }));
        }
        handle.release_write(SharedState { state, history: Ghost(h1) });
        (state.temperature, state.connected)
    }

    /// One coherent snapshot of the shared pair. Whatever writes run
    /// concurrently, the pair is never torn: it is a state the listener's
    /// state machine reached, so a true flag comes with the reading the same
    /// receive installed.
    pub fn observe(&self) -> (r: (u32, bool))
        ensures
            reachable(r.0, r.1),
    {
        let handle = self.shared.acquire_read();
        let cur = handle.borrow();
        let temperature = cur.state.temperature;
        let connected = cur.state.connected;
        proof {
            assert(run(cur.history@) == (ListenerState { temperature, connected }));
        }
        handle.release_read();
        (temperature, connected)
    }

    /// The bit pattern of the latest reading: the last successfully decoded
    /// datagram, or the zero-initialized default if none ever arrived.
    pub fn get_temperature(&self) -> (r: u32)
        ensures
            exists|connected: bool| #[trigger] reachable(r, connected),
    {
        let snapshot = self.observe();
        snapshot.0
    }

    /// Whether the most recent receive attempt succeeded within its timeout.
    pub fn is_connected(&self) -> (r: bool)
        ensures
            exists|temperature: u32| #[trigger] reachable(temperature, r),
    {
        let snapshot = self.observe();
        snapshot.1
    }

    /// The display decision on the current snapshot: the reading to report
    /// while connectivity is asserted, nothing while it is not.
    pub fn report(&self) -> (r: Option<u32>)
        ensures
            r matches Some(t) ==> reachable(t, true),
            r is None ==> exists|t: u32| #[trigger] reachable(t, false),
    {
        let (temperature, connected) = self.observe();
        display_decision(temperature, connected)
    }

    /// Ask the listener task to stop; it exits at the top of its next
    /// iteration.
    pub fn request_stop(&self) {
        let (_, handle) = self.finished.acquire_write();
        handle.release_write(true);
    }

    /// Whether a stop has been requested; the listener polls this once per
    /// iteration before receiving.
    pub fn stop_requested(&self) -> bool {
        let handle = self.finished.acquire_read();
        let stop = *handle.borrow();
        handle.release_read();
        stop
    }
}

/// The display loop's rule: report the reading exactly when connectivity is
/// asserted; suppress the (stale) reading otherwise.
pub fn display_decision(temperature: u32, connected: bool) -> (r: Option<u32>)
    ensures
        r == (if connected { Some(temperature) } else { None::<u32> }),
{
    if connected {
        Some(temperature)
    } else {
        None
    }
}

} // verus!
