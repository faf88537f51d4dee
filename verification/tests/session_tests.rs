use dcgm_safe::session::ConnectCall;
use dcgm_safe::session::DcgmLibSafe;
use dcgm_safe::session::Mode;
use dcgm_safe::session::StopCall;
use dcgm_safe::session::CONNECT_TIMEOUT_MS;

fn strings(items: &[&str]) -> Vec<String> {
    items.iter().map(|s| s.to_string()).collect()
}

#[test]
fn embedded_plan_starts_engine_in_auto_mode() {
    let (session, call) = DcgmLibSafe::new(Mode::Embedded, &strings(&[])).unwrap();
    assert!(!session.is_connected());
    assert_eq!(session.handle(), 0);
    match call {
        ConnectCall::StartEmbedded { op_mode } => assert_eq!(op_mode, 1),
        _ => panic!("embedded mode must start the in-process engine"),
    }
}

#[test]
fn standalone_with_one_argument_fails_validation() {
    let err = DcgmLibSafe::new(Mode::Standalone, &strings(&["127.0.0.1:5555"])).unwrap_err();
    assert_eq!(err.message, "missing dcgm address and / or isUnixSocket");
}

#[test]
fn standalone_with_no_arguments_fails_validation() {
    let err = DcgmLibSafe::new(Mode::Standalone, &strings(&[])).unwrap_err();
    assert_eq!(err.message, "missing dcgm address and / or isUnixSocket");
}

#[test]
fn standalone_with_two_arguments_builds_descriptor() {
    let (_, call) = DcgmLibSafe::new(Mode::Standalone, &strings(&["127.0.0.1:5555", "0"])).unwrap();
    match call {
        ConnectCall::ConnectRemote { address, params } => {
            assert_eq!(address, "127.0.0.1:5555");
            assert_eq!(params.version, 16 | (2 << 24));
            assert_eq!(params.timeoutMs, CONNECT_TIMEOUT_MS);
            assert_eq!(params.timeoutMs, 3_000_000);
            assert_eq!(params.addressIsUnixSocket, 0);
            assert_eq!(params.persistAfterDisconnect, 0);
        },
        _ => panic!("standalone mode must connect to the address"),
    }
}

#[test]
fn standalone_third_argument_sets_persistence() {
    let args = strings(&["/run/engine.sock", "1", "1"]);
    let (_, call) = DcgmLibSafe::new(Mode::Standalone, &args).unwrap();
    match call {
        ConnectCall::ConnectRemote { address, params } => {
            assert_eq!(address, "/run/engine.sock");
            assert_eq!(params.addressIsUnixSocket, 1);
            assert_eq!(params.persistAfterDisconnect, 1);
        },
        _ => panic!("standalone mode must connect to the address"),
    }
}

#[test]
fn standalone_unparsable_socket_flag_fails_validation() {
    let err = DcgmLibSafe::new(Mode::Standalone, &strings(&["addr", "yes"])).unwrap_err();
    assert_eq!(err.message, "invalid isUnixSocket argument");
}

#[test]
fn standalone_unparsable_persistence_flag_fails_validation() {
    let err = DcgmLibSafe::new(Mode::Standalone, &strings(&["addr", "0", "maybe"])).unwrap_err();
    assert_eq!(err.message, "invalid persistAfterDisconnect argument");
}

#[test]
fn start_hostengine_mode_is_not_implemented() {
    let err = DcgmLibSafe::new(Mode::StartHostengine, &strings(&[])).unwrap_err();
    assert_eq!(err.message, "Not implemented");
}

#[test]
fn successful_connect_records_handle() {
    let (mut session, _) = DcgmLibSafe::new(Mode::Embedded, &strings(&[])).unwrap();
    session.completeConnect(0, None, 77).unwrap();
    assert!(session.is_connected());
    assert_eq!(session.handle(), 77);
}

#[test]
fn failed_connect_leaves_session_unconnected() {
    let (mut session, _) = DcgmLibSafe::new(Mode::Embedded, &strings(&[])).unwrap();
    let err = session.completeConnect(-7, None, 77).unwrap_err();
    assert_eq!(err.message, "Unknown DCGM error -7");
    assert!(!session.is_connected());
    assert_eq!(session.handle(), 0);
}

#[test]
fn embedded_shutdown_stops_engine_then_shuts_down() {
    let (session, _) = DcgmLibSafe::new(Mode::Embedded, &strings(&[])).unwrap();
    let calls = session.shutdown().unwrap();
    assert_eq!(calls, vec![StopCall::StopEmbedded, StopCall::GlobalShutdown]);
}

#[test]
fn standalone_shutdown_disconnects_then_shuts_down() {
    let (session, _) = DcgmLibSafe::new(Mode::Standalone, &strings(&["addr", "0"])).unwrap();
    let calls = session.shutdown().unwrap();
    assert_eq!(calls, vec![StopCall::Disconnect, StopCall::GlobalShutdown]);
}

#[test]
fn hostengine_shutdown_always_fails() {
    let (mut session, _) = DcgmLibSafe::new(Mode::Embedded, &strings(&[])).unwrap();
    session.completeConnect(0, None, 5).unwrap();
    let calls = session.stopEmbedded();
    assert_eq!(calls, vec![StopCall::StopEmbedded, StopCall::GlobalShutdown]);
    let other = session.disconnectStandalone();
    assert_eq!(other, vec![StopCall::Disconnect, StopCall::GlobalShutdown]);
}

#[test]
fn successful_shutdown_closes_session_and_clears_handle() {
    let (mut session, _) = DcgmLibSafe::new(Mode::Embedded, &strings(&[])).unwrap();
    session.completeConnect(0, None, 9).unwrap();
    session.completeShutdown(0, None, Some((0, None))).unwrap();
    assert!(!session.is_connected());
    assert_eq!(session.handle(), 0);
}

#[test]
fn failed_stop_call_keeps_session_state() {
    let (mut session, _) = DcgmLibSafe::new(Mode::Embedded, &strings(&[])).unwrap();
    session.completeConnect(0, None, 9).unwrap();
    let err = session.completeShutdown(-3, Some("engine busy".to_string()), None).unwrap_err();
    assert_eq!(err.message, "engine busy");
    assert!(session.is_connected());
    assert_eq!(session.handle(), 9);
}

#[test]
fn failed_global_shutdown_reports_second_error() {
    let (mut session, _) = DcgmLibSafe::new(Mode::Embedded, &strings(&[])).unwrap();
    session.completeConnect(0, None, 9).unwrap();
    let err = session.completeShutdown(0, None, Some((-10, None))).unwrap_err();
    assert_eq!(err.message, "Unknown DCGM error -10");
    assert!(session.is_connected());
}

#[test]
fn connect_plan_dispatches_on_mode() {
    let call = DcgmLibSafe::connectToDcgm(Mode::Embedded, &strings(&[])).unwrap();
    assert!(matches!(call, ConnectCall::StartEmbedded { op_mode: 1 }));
    let err = DcgmLibSafe::connectToDcgm(Mode::StartHostengine, &strings(&[])).unwrap_err();
    assert_eq!(err.message, "Not implemented");
    let call = DcgmLibSafe::connectToDcgm(Mode::Standalone, &strings(&["a", "0"])).unwrap();
    assert!(matches!(call, ConnectCall::ConnectRemote { .. }));
}

#[test]
fn mode_is_fixed_at_construction() {
    let (session, _) = DcgmLibSafe::new(Mode::Standalone, &strings(&["a", "0"])).unwrap();
    assert_eq!(session.mode(), Mode::Standalone);
}
