//! The shared cache of the latest decoded input state. One poller publishes
//! into it; any number of readers take snapshots. A reader always gets one
//! whole published state, never a mix of two: the state sits behind a
//! reader-writer lock and is replaced in one move under the write lock.
use vstd::prelude::*;
use vstd::rwlock::{RwLock, RwLockPredicate};
use crate::report::{connection_of, decode, empty_port, Connection, InputState, PORT_RECORD_LEN};
use crate::mapping::{mapped, packed, query};

verus! {

/// What the lock admits: a state whose disconnected ports carry no input.
pub struct ConsistentState;

impl RwLockPredicate<InputState> for ConsistentState {
    open spec fn inv(self, v: InputState) -> bool {
        v.wf()
    }
}

/// The host's BUTTONS word for `port` in `s`: zero where nothing is attached.
pub open spec fn keys_word(s: InputState, port: i32) -> int {
    if 0 <= port < 4 && s.ports@[port as int].connection != Connection::Disconnected {
        packed(mapped(s.ports@[port as int]))
    } else {
        0
    }
}

/// A port whose status byte announces no controller reads as not connected,
/// whatever its button and analog bytes hold: it decodes to an empty port
/// and its BUTTONS word is zero.
pub proof fn lemma_disconnected_port_reads_nothing(s: InputState, raw: Seq<u8>, port: i32)
    requires
        s.decodes(raw),
        0 <= port < 4,
        raw.len() > 1 + PORT_RECORD_LEN * port,
        connection_of(raw[1 + PORT_RECORD_LEN * port]) == Connection::Disconnected,
    ensures
        s.ports@[port as int] == empty_port(),
        keys_word(s, port) == 0,
{
    assert(s.ports@[port as int] == crate::report::port_in_report(raw, port as int));
}

/// The latest input state, shared between the poller and the readers.
pub struct InputCache {
    lock: RwLock<InputState, ConsistentState>,
}

impl InputCache {
    /// A cache seeded with the state that `raw` decodes to, so that no reader
    /// ever finds it empty.
    pub fn seeded(raw: &[u8]) -> (c: InputCache)
    {
        let state = decode(raw);
        InputCache { lock: RwLock::new(state, Ghost(ConsistentState)) }
    }

    /// Replaces the stored state as a whole.
    pub fn publish(&self, state: InputState)
        requires
            state.wf(),
    {
        let (_previous, handle) = self.lock.acquire_write();
        handle.release_write(state);
    }

    /// Decodes one report and publishes the result.
    pub fn publish_report(&self, raw: &[u8]) {
        let state = decode(raw);
        self.publish(state);
    }

    /// One polling cycle: a report that was read is decoded and published; a
    /// failed read leaves the cached state as it was, stale but whole.
    /// Returns whether anything was published.
    pub fn apply_read(&self, read: Option<&[u8]>) -> (published: bool)
        ensures
            published == read.is_some(),
    {
        match read {
            Some(raw) => {
                self.publish_report(raw);
                true
            },
            None => false,
        }
    }

    /// A copy of the current state, as one publish left it.
    pub fn snapshot(&self) -> (s: InputState)
        ensures
            s.wf(),
    {
        let handle = self.lock.acquire_read();
        let s = *handle.borrow();
        proof {
            assert(self.lock.inv(s));
        }
        handle.release_read();
        s
    }

    /// The host's BUTTONS word for `port` in the current state: the mapped
    /// buttons and axes where a controller is attached, zero elsewhere.
    pub fn read_keys(&self, port: i32) -> (r: u32)
        ensures
            exists|s: InputState| s.wf() && r as int == keys_word(s, port),
    {
        let s = self.snapshot();
        match query(&s, port) {
            Some(m) => m.raw_value(),
            None => 0,
        }
    }
}

} // verus!
