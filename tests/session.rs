use janitor_sim::session::{handle_p2p_events, ConnectionInfo, ConnectionStatus, SessionEvent};

#[test]
fn status_follows_events() {
    let mut info = ConnectionInfo { status: ConnectionStatus::Synchronizing, ping: 12 };
    handle_p2p_events(&mut info, &vec![SessionEvent::Synchronizing]);
    assert_eq!(info.status, ConnectionStatus::Synchronizing);
    handle_p2p_events(&mut info, &vec![SessionEvent::Synchronized, SessionEvent::NetworkInterrupted]);
    assert_eq!(info.status, ConnectionStatus::Interrupted);
    handle_p2p_events(&mut info, &vec![SessionEvent::NetworkResumed, SessionEvent::WaitRecommendation]);
    assert_eq!(info.status, ConnectionStatus::Running);
    handle_p2p_events(&mut info, &vec![SessionEvent::Disconnected]);
    assert_eq!(info.status, ConnectionStatus::Disconnected);
    assert_eq!(info.ping, 12);
}

#[test]
fn status_names() {
    assert_eq!(ConnectionStatus::Synchronizing.as_str(), "Synchronizing");
    assert_eq!(ConnectionStatus::Running.as_str(), "Running");
    assert_eq!(ConnectionStatus::Interrupted.as_str(), "Interrupted");
    assert_eq!(ConnectionStatus::Disconnected.as_str(), "Disconnected");
}
