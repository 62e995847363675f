//! The DoIP session's decisions and the option layering.

use doipdiag::argparse::{override_opts, Options};
use doipdiag::doip_ops::{
    mux_on_receive, recv_map, scenario_error_of_fault, send_dispatch, CnxFault, DoIpMessage,
    MuxAction, NotifyState, ScenarioMessage, SendAction,
};
use doipdiag::error::ScenarioError;

#[test]
fn reconnect_notifications_come_in_order() {
    let st = NotifyState::Idle.after_reconnect();
    let (first, st) = st.drain_notification();
    assert!(matches!(first, Some(ScenarioMessage::NotifyNewDoIpCnx)));
    let (second, st) = st.drain_notification();
    assert!(matches!(second, Some(ScenarioMessage::NotifyDoIpCnxRoutingAck)));
    let (third, st) = st.drain_notification();
    assert!(third.is_none());
    assert_eq!(st, NotifyState::Idle);
}

#[test]
fn incoming_messages_map_to_scenario_messages() {
    assert!(matches!(
        recv_map(DoIpMessage::AliveCheckRequest),
        Ok(Some(ScenarioMessage::AliveCheckReq))
    ));
    assert!(matches!(
        recv_map(DoIpMessage::AliveCheckResponse),
        Ok(Some(ScenarioMessage::AliveCheckRsp))
    ));
    match recv_map(DoIpMessage::DiagnosticMessage(vec![0x62, 0xf1, 0x90])) {
        Ok(Some(ScenarioMessage::Uds(b))) => assert_eq!(b, vec![0x62, 0xf1, 0x90]),
        _ => panic!("a diagnostic payload did not pass through"),
    }
    // a malformed negative response is a codec error
    assert!(matches!(
        recv_map(DoIpMessage::DiagnosticMessage(vec![0x7f, 0x22])),
        Err(ScenarioError::UdsError)
    ));
    // acknowledgements and routing responses are skipped
    assert!(matches!(recv_map(DoIpMessage::Other), Ok(None)));
}

#[test]
fn outbound_messages_map_to_connection_work() {
    match send_dispatch(ScenarioMessage::Uds(vec![0x22, 0xf1, 0x90])) {
        SendAction::TransmitDiagnostic(b) => assert_eq!(b, vec![0x22, 0xf1, 0x90]),
        _ => panic!("a UDS message was not transmitted"),
    }
    assert!(matches!(
        send_dispatch(ScenarioMessage::AliveCheckRsp),
        SendAction::TransmitAliveCheckRsp
    ));
    assert!(matches!(
        send_dispatch(ScenarioMessage::DisconnectReconnectReq),
        SendAction::Reconnect
    ));
    assert!(matches!(send_dispatch(ScenarioMessage::AliveCheckReq), SendAction::Nothing));
    assert!(matches!(send_dispatch(ScenarioMessage::NotifyNewDoIpCnx), SendAction::Nothing));
    assert!(matches!(
        send_dispatch(ScenarioMessage::NotifyDoIpCnxRoutingAck),
        SendAction::Nothing
    ));
}

#[test]
fn connection_faults_keep_their_meaning() {
    assert!(matches!(
        scenario_error_of_fault(CnxFault::ConnectionError),
        ScenarioError::NetworkConnectorDead
    ));
    assert!(matches!(
        scenario_error_of_fault(CnxFault::ConnectionTimeout),
        ScenarioError::NetworkConnectorDead
    ));
    assert!(matches!(
        scenario_error_of_fault(CnxFault::InvalidMessageToSend),
        ScenarioError::NetworkConnectorDead
    ));
    assert!(matches!(
        scenario_error_of_fault(CnxFault::InvalidMessageReceived),
        ScenarioError::NetworkConnectorDead
    ));
    assert!(matches!(
        scenario_error_of_fault(CnxFault::RoutingActivationFailed),
        ScenarioError::RoutingActivationFailed
    ));
    assert!(matches!(scenario_error_of_fault(CnxFault::SendTimeout), ScenarioError::Io));
}

#[test]
fn the_multiplexer_recovers_by_reconnecting() {
    match mux_on_receive(Ok(ScenarioMessage::AliveCheckReq)) {
        MuxAction::Forward(ScenarioMessage::AliveCheckReq) => {}
        _ => panic!("a received message was not forwarded"),
    }
    assert!(matches!(
        mux_on_receive(Err(ScenarioError::NetworkConnectorDead)),
        MuxAction::Reconnect
    ));
    assert!(matches!(
        mux_on_receive(Err(ScenarioError::UdsError)),
        MuxAction::Reconnect
    ));
}

fn layer(
    local: Option<&str>,
    discover: bool,
    commands: &[&str],
    scenario: Option<&str>,
) -> Options {
    Options {
        local_diag_socket: local.map(|s| s.to_string()),
        remote_diag_socket: None,
        broadcast_diag_socket: None,
        discover,
        doip_local_addr: None,
        doip_target_addr: None,
        configfile: None,
        uds_commands: commands.iter().map(|s| s.to_string()).collect(),
        scenario: scenario.map(|s| s.to_string()),
    }
}

#[test]
fn the_later_options_layer_wins() {
    let below = layer(Some("192.168.11.10:0"), false, &["10 03"], Some("a.yaml"));
    let above = layer(Some("127.0.0.1:0"), true, &["22 f1 90"], None);
    let merged = override_opts(below, above);
    assert_eq!(merged.local_diag_socket.as_deref(), Some("127.0.0.1:0"));
    assert!(merged.discover);
    assert_eq!(merged.uds_commands, vec!["10 03".to_string(), "22 f1 90".to_string()]);
    assert_eq!(merged.scenario.as_deref(), Some("a.yaml"));
    assert!(merged.remote_diag_socket.is_none());
}
