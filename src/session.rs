//! The connection status shown to the players, as session events move it.
use vstd::prelude::*;

verus! {

/// The state of the connection to the remote peer.
#[derive(Clone, Copy, Debug, PartialEq, Eq, Structural)]
pub enum ConnectionStatus {
    Synchronizing,
    Running,
    Interrupted,
    Disconnected,
}

/// The session events that move the connection status.
#[derive(Clone, Copy, Debug, PartialEq, Eq, Structural)]
pub enum SessionEvent {
    Synchronizing,
    Synchronized,
    Disconnected,
    NetworkInterrupted,
    NetworkResumed,
    WaitRecommendation,
    DesyncDetected,
}

/// What the status panel shows: the connection status and the last ping in ms.
#[derive(Clone, Copy, Debug, PartialEq, Eq, Structural)]
pub struct ConnectionInfo {
    pub status: ConnectionStatus,
    pub ping: u128,
}

pub open spec fn status_after(status: ConnectionStatus, event: SessionEvent) -> ConnectionStatus {
    match event {
        SessionEvent::Synchronized => ConnectionStatus::Running,
        SessionEvent::Disconnected => ConnectionStatus::Disconnected,
        SessionEvent::NetworkInterrupted => ConnectionStatus::Interrupted,
        SessionEvent::NetworkResumed => ConnectionStatus::Running,
        _ => status,
    }
}

impl ConnectionStatus {
    /// The status's name as the status panel shows it.
    pub fn as_str(&self) -> (r: &'static str)
        ensures
            *self == ConnectionStatus::Synchronizing ==> r@ == "Synchronizing"@,
            *self == ConnectionStatus::Running ==> r@ == "Running"@,
            *self == ConnectionStatus::Interrupted ==> r@ == "Interrupted"@,
            *self == ConnectionStatus::Disconnected ==> r@ == "Disconnected"@,
    {
        match self {
            ConnectionStatus::Synchronizing => "Synchronizing",
            ConnectionStatus::Running => "Running",
            ConnectionStatus::Interrupted => "Interrupted",
            ConnectionStatus::Disconnected => "Disconnected",
        }
    }
}

/// Applies the session's events of this frame, in order, to the status.
pub fn handle_p2p_events(info: &mut ConnectionInfo, events: &Vec<SessionEvent>)
    ensures
        final(info).ping == old(info).ping,
        final(info).status == events@.fold_left(old(info).status, |s: ConnectionStatus, e: SessionEvent| status_after(s, e)),
{
    let mut i: usize = 0;
    while i < events.len()
        invariant
            i <= events@.len(),
            info.ping == old(info).ping,
            info.status == events@.take(i as int).fold_left(old(info).status, |s: ConnectionStatus, e: SessionEvent| status_after(s, e)),
        decreases events@.len() - i,
    {
        proof {
            assert(events@.take(i + 1).drop_last() =~= events@.take(i as int));
        }
        info.status = match events[i] {
            SessionEvent::Synchronized => ConnectionStatus::Running,
            SessionEvent::Disconnected => ConnectionStatus::Disconnected,
            SessionEvent::NetworkInterrupted => ConnectionStatus::Interrupted,
            SessionEvent::NetworkResumed => ConnectionStatus::Running,
            _ => info.status,
        };
        i += 1;
    }
    proof {
        assert(events@.take(events@.len() as int) =~= events@);
    }
}

} // verus!
