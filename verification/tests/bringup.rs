use vfd_marquee::connect::{
    bringup_query, bringup_step, entry_command, initial_state, is_complete, ConnectionState,
    WifiCommand, WifiQuery,
};

#[test]
fn bringup_walks_the_whole_sequence() {
    let s = initial_state();
    assert_eq!(s, ConnectionState::Stopped);
    assert_eq!(entry_command(s), Some(WifiCommand::Stop));
    assert_eq!(bringup_query(s), Some(WifiQuery::IsStarted));

    // still reported started: keep polling
    let s = bringup_step(s, true);
    assert_eq!(s, ConnectionState::Stopped);
    // no longer started: stop confirmed, start is issued
    let s = bringup_step(s, false);
    assert_eq!(s, ConnectionState::Starting);
    assert_eq!(entry_command(s), Some(WifiCommand::Start));
    assert_eq!(bringup_query(s), Some(WifiQuery::IsStarted));

    let s = bringup_step(s, false);
    assert_eq!(s, ConnectionState::Starting);
    let s = bringup_step(s, true);
    assert_eq!(s, ConnectionState::Started);
    assert_eq!(bringup_query(s), None);

    let s = bringup_step(s, false);
    assert_eq!(s, ConnectionState::Connecting);
    assert_eq!(entry_command(s), Some(WifiCommand::Connect));
    assert_eq!(bringup_query(s), Some(WifiQuery::IsConnected));

    let s = bringup_step(s, false);
    assert_eq!(s, ConnectionState::Connecting);
    let s = bringup_step(s, true);
    assert_eq!(s, ConnectionState::Connected);
    assert_eq!(bringup_query(s), Some(WifiQuery::IsUp));

    let s = bringup_step(s, false);
    assert_eq!(s, ConnectionState::Connected);
    assert!(!is_complete(s));
    let s = bringup_step(s, true);
    assert_eq!(s, ConnectionState::NetworkReady);
    assert!(is_complete(s));

    // complete stays complete
    assert_eq!(bringup_step(s, false), ConnectionState::NetworkReady);
}

#[test]
fn only_the_stop_phase_waits_for_false() {
    assert_eq!(bringup_step(ConnectionState::Stopped, true), ConnectionState::Stopped);
    assert_eq!(bringup_step(ConnectionState::Starting, false), ConnectionState::Starting);
    assert_eq!(bringup_step(ConnectionState::Connecting, false), ConnectionState::Connecting);
    assert_eq!(bringup_step(ConnectionState::Connected, false), ConnectionState::Connected);
}
