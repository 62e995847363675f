//! The DoIP session's decisions.
//!
//! The session itself — a TCP connection with the routing-activation
//! handshake — lives outside the library.  Here stand the decisions it
//! takes: how an incoming DoIP message maps to a scenario message, what a
//! scenario message asks of the connection when sent, how connection
//! faults map to scenario errors, how the multiplexer reacts, and the
//! little state machine that serializes the two notifications after a
//! reconnect.

use crate::error::ScenarioError;
use crate::uds::decode_spec;
use vstd::prelude::*;

verus! {

/// Timeout of the TCP connect, in milliseconds.
pub const TCP_CONNECT_TIMEOUT_MS: u64 = 1000;

/// Timeout of the routing-activation response, in milliseconds.
pub const ROUTING_ACTIVATION_TIMEOUT_MS: u64 = 1000;

/// Timeout of one diagnostic send with its acknowledgement, in milliseconds.
pub const SEND_TIMEOUT_MS: u64 = 1000;

/// Capacity of the request queue: one, so that at most one UDS request is
/// in flight.
pub const REQ_QUEUE_CAPACITY: usize = 1;

/// Capacity of the reply queue: three, to absorb a reply and the two
/// notifications that burst after a reconnect.
pub const RSP_QUEUE_CAPACITY: usize = 3;

/// What travels between the executor and the DoIP session.  A UDS message
/// travels as its wire bytes.
#[derive(Debug)]
pub enum ScenarioMessage {
    Uds(Vec<u8>),
    AliveCheckReq,
    AliveCheckRsp,
    DisconnectReconnectReq,
    NotifyNewDoIpCnx,
    NotifyDoIpCnxRoutingAck,
}

/// The mathematical value of a [`ScenarioMessage`].
pub enum ScenarioMessageV {
    Uds(Seq<u8>),
    AliveCheckReq,
    AliveCheckRsp,
    DisconnectReconnectReq,
    NotifyNewDoIpCnx,
    NotifyDoIpCnxRoutingAck,
}

impl View for ScenarioMessage {
    type V = ScenarioMessageV;

    open spec fn view(&self) -> ScenarioMessageV {
        match self {
            ScenarioMessage::Uds(b) => ScenarioMessageV::Uds(b@),
            ScenarioMessage::AliveCheckReq => ScenarioMessageV::AliveCheckReq,
            ScenarioMessage::AliveCheckRsp => ScenarioMessageV::AliveCheckRsp,
            ScenarioMessage::DisconnectReconnectReq => ScenarioMessageV::DisconnectReconnectReq,
            ScenarioMessage::NotifyNewDoIpCnx => ScenarioMessageV::NotifyNewDoIpCnx,
            ScenarioMessage::NotifyDoIpCnxRoutingAck => ScenarioMessageV::NotifyDoIpCnxRoutingAck,
        }
    }
}

/// The notifications a session still owes after a reconnect, as explicit
/// states: both, the routing acknowledgement alone, or none.
#[derive(Debug, Clone, Copy, PartialEq, Eq, Structural)]
pub enum NotifyState {
    Idle,
    NewCnxPending,
    RoutedAckPending,
}

/// What draining one pending notification yields and leaves.
pub open spec fn spec_drain_notification(st: NotifyState) -> (Option<ScenarioMessageV>,
    NotifyState) {
    match st {
        NotifyState::Idle => (None, NotifyState::Idle),
        NotifyState::NewCnxPending => (
            Some(ScenarioMessageV::NotifyNewDoIpCnx),
            NotifyState::RoutedAckPending,
        ),
        NotifyState::RoutedAckPending => (
            Some(ScenarioMessageV::NotifyDoIpCnxRoutingAck),
            NotifyState::Idle,
        ),
    }
}

impl NotifyState {
    /// A successful reconnect owes both notifications.
    pub fn after_reconnect(self) -> (r: NotifyState)
        ensures
            r == NotifyState::NewCnxPending,
    {
        NotifyState::NewCnxPending
    }

    /// Hand out the next owed notification, if any: first the
    /// new-connection notice, then the routing acknowledgement.
    pub fn drain_notification(self) -> (r: (Option<ScenarioMessage>, NotifyState))
        ensures
            r.1 == spec_drain_notification(self).1,
            match r.0 {
                Some(m) => spec_drain_notification(self).0 == Some(m@),
                None => spec_drain_notification(self).0 is None,
            },
    {
        match self {
            NotifyState::Idle => (None, NotifyState::Idle),
            NotifyState::NewCnxPending => (
                Some(ScenarioMessage::NotifyNewDoIpCnx),
                NotifyState::RoutedAckPending,
            ),
            NotifyState::RoutedAckPending => (
                Some(ScenarioMessage::NotifyDoIpCnxRoutingAck),
                NotifyState::Idle,
            ),
        }
    }
}

/// After a reconnect the session hands out exactly the new-connection
/// notice and then the routing acknowledgement, in that order, before
/// falling idle.
pub proof fn lemma_notifications_in_order()
    ensures
        ({
            let first = spec_drain_notification(NotifyState::NewCnxPending);
            let second = spec_drain_notification(first.1);
            let third = spec_drain_notification(second.1);
            &&& first.0 == Some(ScenarioMessageV::NotifyNewDoIpCnx)
            &&& second.0 == Some(ScenarioMessageV::NotifyDoIpCnxRoutingAck)
            &&& third.0 is None
        }),
{
}

/// An incoming DoIP message, as far as the session reads one: the two
/// alive-check forms, a diagnostic message with its payload, or anything
/// else (acknowledgements, routing responses), which the session skips.
#[derive(Debug)]
pub enum DoIpMessage {
    AliveCheckRequest,
    AliveCheckResponse,
    DiagnosticMessage(Vec<u8>),
    Other,
}

/// Map one incoming DoIP message: alive checks pass through, a diagnostic
/// payload must decode as a UDS reply, everything else is skipped
/// (`None`).  A payload the codec refuses is a [`ScenarioError::UdsError`],
/// which the multiplexer answers with a reconnect.
pub fn recv_map(m: DoIpMessage) -> (r: Result<Option<ScenarioMessage>, ScenarioError>)
    ensures
        match m {
            DoIpMessage::AliveCheckRequest => r == Ok::<_, ScenarioError>(
                Some(ScenarioMessage::AliveCheckReq),
            ),
            DoIpMessage::AliveCheckResponse => r == Ok::<_, ScenarioError>(
                Some(ScenarioMessage::AliveCheckRsp),
            ),
            DoIpMessage::DiagnosticMessage(b) => if decode_spec(b@) is Some {
                r matches Ok(Some(ScenarioMessage::Uds(p))) && p@ == b@
            } else {
                r matches Err(e) && e@ == crate::error::ScenarioErrorV::UdsError
            },
            DoIpMessage::Other => r == Ok::<_, ScenarioError>(None::<ScenarioMessage>),
        },
{
    match m {
        DoIpMessage::AliveCheckRequest => Ok(Some(ScenarioMessage::AliveCheckReq)),
        DoIpMessage::AliveCheckResponse => Ok(Some(ScenarioMessage::AliveCheckRsp)),
        DoIpMessage::DiagnosticMessage(b) => {
            match crate::uds::decode(&b) {
                Some(_) => Ok(Some(ScenarioMessage::Uds(b))),
                None => Err(ScenarioError::UdsError),
            }
        },
        DoIpMessage::Other => Ok(None),
    }
}

/// What sending one scenario message asks of the connection.
#[derive(Debug)]
pub enum SendAction {
    /// Send the bytes as a DoIP diagnostic message and await its
    /// acknowledgement.
    TransmitDiagnostic(Vec<u8>),
    /// Send a DoIP alive-check response carrying the local address.
    TransmitAliveCheckRsp,
    /// Drop the connection and connect and activate routing anew.
    Reconnect,
    /// Nothing: the message only means something when received.
    Nothing,
}

/// The connection work one outbound scenario message stands for.
pub fn send_dispatch(msg: ScenarioMessage) -> (r: SendAction)
    ensures
        match msg {
            ScenarioMessage::Uds(b) => r matches SendAction::TransmitDiagnostic(p) && p@ == b@,
            ScenarioMessage::AliveCheckRsp => r is TransmitAliveCheckRsp,
            ScenarioMessage::DisconnectReconnectReq => r is Reconnect,
            ScenarioMessage::AliveCheckReq => r is Nothing,
            ScenarioMessage::NotifyNewDoIpCnx => r is Nothing,
            ScenarioMessage::NotifyDoIpCnxRoutingAck => r is Nothing,
        },
{
    match msg {
        ScenarioMessage::Uds(b) => SendAction::TransmitDiagnostic(b),
        ScenarioMessage::AliveCheckRsp => SendAction::TransmitAliveCheckRsp,
        ScenarioMessage::DisconnectReconnectReq => SendAction::Reconnect,
        ScenarioMessage::AliveCheckReq => SendAction::Nothing,
        ScenarioMessage::NotifyNewDoIpCnx => SendAction::Nothing,
        ScenarioMessage::NotifyDoIpCnxRoutingAck => SendAction::Nothing,
    }
}

/// A fault of the DoIP connection, as the session reads one.
#[derive(Debug, Clone, Copy, PartialEq, Eq, Structural)]
pub enum CnxFault {
    ConnectionError,
    ConnectionTimeout,
    InvalidMessageToSend,
    InvalidMessageReceived,
    RoutingActivationFailed,
    SendTimeout,
}

/// How a connection fault surfaces: a refused routing activation keeps its
/// name, a send timeout is local I/O, everything else means the transport
/// is dead.
pub fn scenario_error_of_fault(f: CnxFault) -> (r: ScenarioError)
    ensures
        match f {
            CnxFault::RoutingActivationFailed => r is RoutingActivationFailed,
            CnxFault::SendTimeout => r is Io,
            _ => r is NetworkConnectorDead,
        },
{
    match f {
        CnxFault::ConnectionError => ScenarioError::NetworkConnectorDead,
        CnxFault::ConnectionTimeout => ScenarioError::NetworkConnectorDead,
        CnxFault::InvalidMessageToSend => ScenarioError::NetworkConnectorDead,
        CnxFault::InvalidMessageReceived => ScenarioError::NetworkConnectorDead,
        CnxFault::RoutingActivationFailed => ScenarioError::RoutingActivationFailed,
        CnxFault::SendTimeout => ScenarioError::Io,
    }
}

/// What the multiplexer does with one received result.
#[derive(Debug)]
pub enum MuxAction {
    /// Forward the message to the executor; when the forward fails the
    /// executor is gone and the task exits.
    Forward(ScenarioMessage),
    /// Recover locally: reconnect the session and carry on.
    Reconnect,
}

/// The multiplexer recovers from every receive error by reconnecting; only
/// a dropped executor ends it.
pub fn mux_on_receive(r: Result<ScenarioMessage, ScenarioError>) -> (a: MuxAction)
    ensures
        match r {
            Ok(m) => a matches MuxAction::Forward(f) && f@ == m@,
            Err(_) => a is Reconnect,
        },
{
    match r {
        Ok(m) => MuxAction::Forward(m),
        Err(_) => MuxAction::Reconnect,
    }
}

} // verus!
