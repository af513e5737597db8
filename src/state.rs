//! The server lifecycle state, shared by every handle of the transport.

use core::sync::atomic::{AtomicU8, Ordering};
use vstd::prelude::*;

verus! {

/// Phase of the hosting server. Phases only move forward.
#[derive(Clone, Copy, Debug, PartialEq, Eq, Structural)]
pub enum State {
    Initializing,
    Running,
    Exited,
}

/// Numeric encoding of a phase; the order of codes is the order of phases.
pub open spec fn code_of(s: State) -> u8 {
    match s {
        State::Initializing => 0,
        State::Running => 1,
        State::Exited => 2,
    }
}

/// Decoding of a stored code; any code past the last phase reads as `Exited`.
pub open spec fn state_of(c: u8) -> State {
    if c == 0 {
        State::Initializing
    } else if c == 1 {
        State::Running
    } else {
        State::Exited
    }
}

impl State {
    pub fn code(self) -> (r: u8)
        ensures
            r == code_of(self),
    {
        match self {
            State::Initializing => 0,
            State::Running => 1,
            State::Exited => 2,
        }
    }

    pub fn from_code(c: u8) -> (r: State)
        ensures
            r == state_of(c),
    {
        if c == 0 {
            State::Initializing
        } else if c == 1 {
            State::Running
        } else {
            State::Exited
        }
    }
}

/// A lifecycle state readable and advanceable through a shared reference.
///
/// Advancing keeps the larger of the stored and the requested phase, so the
/// state never moves backwards, whichever handles race to set it.
#[derive(Debug)]
pub struct ServerState {
    code: AtomicU8,
}

impl ServerState {
    /// A fresh state in the `Initializing` phase.
    pub fn new() -> ServerState {
        ServerState { code: AtomicU8::new(State::Initializing.code()) }
    }

    /// The current phase. Other holders may advance it at any time, so
    /// nothing is promised of which phase is read.
    pub fn get(&self) -> (r: State) {
        let c = self.code.load(Ordering::SeqCst);
        State::from_code(c)
    }

    /// Advances to `s`, unless a later phase has already been reached.
    pub fn set(&self, s: State) {
        let _ = self.code.fetch_max(s.code(), Ordering::SeqCst);
    }
}

} // verus!
