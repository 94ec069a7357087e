//! The connectivity supervisor: the wireless bring-up sequence as an
//! explicit state machine.
//!
//! Bring-up forces a stop of any earlier session, then starts the
//! interface, connects, and waits for the network layer to come up. Each
//! phase polls one predicate of the wireless stack; while the predicate is
//! not yet satisfied the caller renders one loading-animation frame and
//! waits a fixed interval before polling again. The machine only moves
//! forward, and reports completion only once the network is up.

use vstd::prelude::*;

verus! {

/// Milliseconds between two polls of a bring-up predicate.
pub const POLL_INTERVAL_MS: u32 = 200;

/// Milliseconds the finished bring-up keeps its success message visible.
pub const CONNECTED_PAUSE_MS: u32 = 1000;

/// The fixed message rendered when bring-up completes.
pub const CONNECTED_TEXT: &'static str = "connected   ";

/// Phase of the wireless bring-up.
///
/// A phase with an entry command has that command issued when it is
/// entered; a phase with a query polls it until the target value holds.
#[derive(Clone, Copy, PartialEq, Eq, Structural, Debug)]
pub enum ConnectionState {
    /// Stop issued; waiting for the interface to no longer report started.
    Stopped,
    /// Start issued; waiting for the interface to report started.
    Starting,
    /// Start confirmed; the connect command is issued next.
    Started,
    /// Connect issued; waiting for the interface to report connected.
    Connecting,
    /// Connection confirmed; waiting for the network layer to be up.
    Connected,
    /// The network is up: bring-up is complete.
    NetworkReady,
}

/// Command the supervisor issues to the wireless stack.
#[derive(Clone, Copy, PartialEq, Eq, Structural, Debug)]
pub enum WifiCommand {
    Stop,
    Start,
    Connect,
}

/// Predicate of the wireless stack the supervisor polls.
#[derive(Clone, Copy, PartialEq, Eq, Structural, Debug)]
pub enum WifiQuery {
    IsStarted,
    IsConnected,
    IsUp,
}

/// The predicate polled in a phase, if the phase polls one.
pub open spec fn bringup_query_spec(s: ConnectionState) -> Option<WifiQuery> {
    match s {
        ConnectionState::Stopped => Some(WifiQuery::IsStarted),
        ConnectionState::Starting => Some(WifiQuery::IsStarted),
        ConnectionState::Started => None,
        ConnectionState::Connecting => Some(WifiQuery::IsConnected),
        ConnectionState::Connected => Some(WifiQuery::IsUp),
        ConnectionState::NetworkReady => None,
    }
}

/// The polled value on which a phase advances: the stop phase waits for
/// the started predicate to turn false, every other poll waits for true.
pub open spec fn query_target_spec(s: ConnectionState) -> bool {
    match s {
        ConnectionState::Stopped => false,
        _ => true,
    }
}

/// The phase that follows a completed phase.
pub open spec fn successor_spec(s: ConnectionState) -> ConnectionState {
    match s {
        ConnectionState::Stopped => ConnectionState::Starting,
        ConnectionState::Starting => ConnectionState::Started,
        ConnectionState::Started => ConnectionState::Connecting,
        ConnectionState::Connecting => ConnectionState::Connected,
        ConnectionState::Connected => ConnectionState::NetworkReady,
        ConnectionState::NetworkReady => ConnectionState::NetworkReady,
    }
}

/// The command issued when a phase is entered, if any.
pub open spec fn entry_command_spec(s: ConnectionState) -> Option<WifiCommand> {
    match s {
        ConnectionState::Stopped => Some(WifiCommand::Stop),
        ConnectionState::Starting => Some(WifiCommand::Start),
        ConnectionState::Connecting => Some(WifiCommand::Connect),
        _ => None,
    }
}

/// One poll tick: a polling phase advances exactly when the observed value
/// is the phase's target; a phase without a query advances by itself, and
/// the completed machine stays complete.
pub open spec fn bringup_next_spec(s: ConnectionState, observed: bool) -> ConnectionState {
    match bringup_query_spec(s) {
        Some(_) => if observed == query_target_spec(s) {
            successor_spec(s)
        } else {
            s
        },
        None => successor_spec(s),
    }
}

/// How far the bring-up has come; grows along the phase sequence.
pub open spec fn rank_spec(s: ConnectionState) -> int {
    match s {
        ConnectionState::Stopped => 0,
        ConnectionState::Starting => 1,
        ConnectionState::Started => 2,
        ConnectionState::Connecting => 3,
        ConnectionState::Connected => 4,
        ConnectionState::NetworkReady => 5,
    }
}

/// The phase bring-up begins in: stopping any earlier session.
pub fn initial_state() -> (s: ConnectionState)
    ensures
        s == ConnectionState::Stopped,
{
    ConnectionState::Stopped
}

/// The predicate the caller must poll in this phase, if any.
pub fn bringup_query(s: ConnectionState) -> (q: Option<WifiQuery>)
    ensures
        q == bringup_query_spec(s),
{
    match s {
        ConnectionState::Stopped => Some(WifiQuery::IsStarted),
        ConnectionState::Starting => Some(WifiQuery::IsStarted),
        ConnectionState::Started => None,
        ConnectionState::Connecting => Some(WifiQuery::IsConnected),
        ConnectionState::Connected => Some(WifiQuery::IsUp),
        ConnectionState::NetworkReady => None,
    }
}

/// The command the caller must issue to the wireless stack on entering
/// this phase, if any.
pub fn entry_command(s: ConnectionState) -> (c: Option<WifiCommand>)
    ensures
        c == entry_command_spec(s),
{
    match s {
        ConnectionState::Stopped => Some(WifiCommand::Stop),
        ConnectionState::Starting => Some(WifiCommand::Start),
        ConnectionState::Connecting => Some(WifiCommand::Connect),
        _ => None,
    }
}

/// Advance the machine by one poll tick on the observed predicate value.
/// The machine never moves backwards, and moves at most one phase forward.
pub fn bringup_step(s: ConnectionState, observed: bool) -> (next: ConnectionState)
    ensures
        next == bringup_next_spec(s, observed),
        rank_spec(s) <= rank_spec(next) <= rank_spec(s) + 1,
{
    match s {
        ConnectionState::Stopped => {
            if !observed {
                ConnectionState::Starting
            } else {
                ConnectionState::Stopped
            }
        },
        ConnectionState::Starting => {
            if observed {
                ConnectionState::Started
            } else {
                ConnectionState::Starting
            }
        },
        ConnectionState::Started => ConnectionState::Connecting,
        ConnectionState::Connecting => {
            if observed {
                ConnectionState::Connected
            } else {
                ConnectionState::Connecting
            }
        },
        ConnectionState::Connected => {
            if observed {
                ConnectionState::NetworkReady
            } else {
                ConnectionState::Connected
            }
        },
        ConnectionState::NetworkReady => ConnectionState::NetworkReady,
    }
}

/// Bring-up is complete exactly in the network-ready phase.
pub fn is_complete(s: ConnectionState) -> (r: bool)
    ensures
        r == (s == ConnectionState::NetworkReady),
{
    match s {
        ConnectionState::NetworkReady => true,
        _ => false,
    }
}

/// Law: completion is reported only once the network layer is up. The
/// machine reaches the network-ready phase in no way but from the
/// connected phase on a positive poll of the up predicate.
pub proof fn lemma_ready_only_from_up(s: ConnectionState, observed: bool)
    ensures
        bringup_next_spec(s, observed) == ConnectionState::NetworkReady ==> (
            s == ConnectionState::NetworkReady
            || (s == ConnectionState::Connected && observed
                && bringup_query_spec(s) == Some(WifiQuery::IsUp))
        ),
{
}

} // verus!
