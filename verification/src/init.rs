//! What the start of the server gives, and what the running server can be
//! told.

use crate::init_flags::InitFlags;
use crate::status::{decimal, decimal_string};
use vstd::prelude::*;
use vstd::string::StringExecFns;

verus! {

/// Whether whoever runs the server has to do something about a warning.
pub type InteractionNeeded = bool;

/// Starts the server from its flags. The start itself, which binds ports and
/// reads files, is the program's.
#[derive(Debug, Clone, PartialEq, Eq)]
pub struct ServerInitializer(pub InitFlags);

/// What is said of a port that is free.
pub open spec fn port_free(family: Seq<char>, port: u16) -> Seq<char> {
    family + ": port "@ + decimal(port as nat) + " available"@
}

/// What is said of a port that is taken.
pub open spec fn port_taken(family: Seq<char>, port: u16) -> Seq<char> {
    "Failed to bind to "@ + family + " port "@ + decimal(port as nat)
}

impl ServerInitializer {
    /// What the start has to say of the port `port` of the protocol family
    /// `family`, which was tried: a note where it could be bound, an error
    /// where not.
    pub fn port_report(family: &str, port: u16, bindable: bool) -> (r: Result<String, String>)
        ensures
            r matches Ok(note) ==> bindable && note@ == port_free(family@, port),
            r matches Err(err) ==> !bindable && err@ == port_taken(family@, port),
    {
        if bindable {
            let mut note: String = String::from_str(family);
            note.append(": port ");
            note.append(decimal_string(port as u64).as_str());
            note.append(" available");
            Ok(note)
        } else {
            let mut err: String = String::from_str("Failed to bind to ");
            err.append(family);
            err.append(" port ");
            err.append(decimal_string(port as u64).as_str());
            Err(err)
        }
    }
}

/// What the running server can be told to do.
#[derive(Debug, Clone, Copy, PartialEq, Eq, Structural)]
pub enum ServerStatus {
    Start,
    Stop,
    Pause,
}

#[derive(Debug, Clone, Copy, PartialEq, Eq, Structural)]
pub enum ServerInitWarn {
    NoConfig,
    EmptyPrefix,
    UsingCurrentDir,
}

impl ServerInitWarn {
    /// The warning with the word on whether something has to be done about
    /// it. Only for a missing configuration is that settled so far: nothing
    /// has to be done.
    pub fn to_kv(self) -> (r: (ServerInitWarn, InteractionNeeded))
        requires
            self == ServerInitWarn::NoConfig,
        ensures
            r == (self, false),
    {
        (self, false)
    }
}

/// Whether the simulation loop runs, waits, or is over.
#[derive(Debug, Clone, Copy, PartialEq, Eq, Structural)]
pub enum RunState {
    Running,
    Paused,
    Stopped,
}

/// The state that the simulation loop is in once it has been told
/// `status`: it stops for good on a stop, waits on a pause while it runs,
/// and runs again on a start while it waits.
pub open spec fn told(state: RunState, status: ServerStatus) -> RunState {
    match (state, status) {
        (RunState::Stopped, _) => RunState::Stopped,
        (_, ServerStatus::Stop) => RunState::Stopped,
        (RunState::Running, ServerStatus::Pause) => RunState::Paused,
        (RunState::Paused, ServerStatus::Start) => RunState::Running,
        (s, _) => s,
    }
}

impl RunState {
    /// Takes a word from whoever controls the server. Where the loop stops
    /// on it, the stop is to be passed on to whoever waits for it.
    pub fn on_status(self, status: ServerStatus) -> (r: (RunState, bool))
        ensures
            r.0 == told(self, status),
            r.1 == (self != RunState::Stopped && status == ServerStatus::Stop),
    {
        match (self, status) {
            (RunState::Stopped, _) => (RunState::Stopped, false),
            (_, ServerStatus::Stop) => (RunState::Stopped, true),
            (RunState::Running, ServerStatus::Pause) => (RunState::Paused, false),
            (RunState::Paused, ServerStatus::Start) => (RunState::Running, false),
            (s, _) => (s, false),
        }
    }
}

} // verus!
