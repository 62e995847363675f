//! The executor machine driven event by event, pinning the exchange
//! discipline: pending responses, keepalives, disconnects, failures, and
//! the block-counter wrap.

use doipdiag::doip_ops::ScenarioMessage;
use doipdiag::executor::{Action, Event, Executor, Frame, Mode};
use doipdiag::parser::{DisconnectDoIp, RawBytes, RawUds, Step};
use doipdiag::error::ScenarioError;
use doipdiag::executor::expect_reply;
use doipdiag::uds::UdsMessage;

fn one_raw_request() -> Executor {
    Executor::new(vec![Step::RawUds(RawUds {
        data: RawBytes::Bytes(vec![0x22, 0xf1, 0x90]),
    })])
}

fn is_recv(a: &Action) -> bool {
    match a {
        Action::Recv => true,
        _ => false,
    }
}

fn sent_uds(a: &Action) -> Option<Vec<u8>> {
    match a {
        Action::Send(ScenarioMessage::Uds(b)) => Some(b.clone()),
        _ => None,
    }
}

#[test]
fn pending_reply_holds_the_step() {
    let mut ex = one_raw_request();
    let a = ex.next(Event::Proceed);
    assert_eq!(sent_uds(&a), Some(vec![0x22, 0xf1, 0x90]));
    assert!(is_recv(&ex.next(Event::Sent(true))));
    // "response pending" negative responses commit nothing, however many
    let a = ex.next(Event::Recv(Some(ScenarioMessage::Uds(vec![0x7f, 0x22, 0x78]))));
    assert!(is_recv(&a));
    let a = ex.next(Event::Recv(Some(ScenarioMessage::Uds(vec![0x7f, 0x22, 0x78]))));
    assert!(is_recv(&a));
    // the first final reply commits and binds the reply variable
    let a = ex.next(Event::Recv(Some(ScenarioMessage::Uds(vec![0x62, 0xf1, 0x90]))));
    match a {
        Action::BindReply(b) => assert_eq!(b, vec![0x62, 0xf1, 0x90]),
        _ => panic!("the final reply did not commit"),
    }
    let a = ex.next(Event::Proceed);
    assert!(matches!(a, Action::Nop));
    let a = ex.next(Event::Proceed);
    assert!(matches!(a, Action::Finished { aborted: false }));
}

#[test]
fn alive_check_is_answered_while_waiting() {
    let mut ex = one_raw_request();
    let _ = ex.next(Event::Proceed);
    let _ = ex.next(Event::Sent(true));
    let a = ex.next(Event::Recv(Some(ScenarioMessage::AliveCheckReq)));
    assert!(matches!(a, Action::Send(ScenarioMessage::AliveCheckRsp)));
    assert!(is_recv(&ex.next(Event::Sent(true))));
    let a = ex.next(Event::Recv(Some(ScenarioMessage::Uds(vec![0x62, 0xf1, 0x90]))));
    assert!(matches!(a, Action::BindReply(_)));
}

#[test]
fn closed_queue_is_a_dead_connector() {
    let mut ex = one_raw_request();
    let _ = ex.next(Event::Proceed);
    let _ = ex.next(Event::Sent(true));
    let a = ex.next(Event::Recv(None));
    assert!(matches!(
        a,
        Action::Fail(doipdiag::error::ScenarioError::NetworkConnectorDead)
    ));
}

#[test]
fn failed_send_is_a_dead_connector() {
    let mut ex = one_raw_request();
    let _ = ex.next(Event::Proceed);
    let a = ex.next(Event::Sent(false));
    assert!(matches!(
        a,
        Action::Fail(doipdiag::error::ScenarioError::NetworkConnectorDead)
    ));
}

#[test]
fn disconnect_waits_for_the_routing_ack() {
    let mut ex = Executor::new(vec![Step::DisconnectDoIp(DisconnectDoIp {
        wait_after_ms: None,
    })]);
    let a = ex.next(Event::Proceed);
    assert!(matches!(
        a,
        Action::Send(ScenarioMessage::DisconnectReconnectReq)
    ));
    assert!(is_recv(&ex.next(Event::Sent(true))));
    // everything before the routing acknowledgement is discarded
    let a = ex.next(Event::Recv(Some(ScenarioMessage::NotifyNewDoIpCnx)));
    assert!(is_recv(&a));
    let a = ex.next(Event::Recv(Some(ScenarioMessage::Uds(vec![0x62]))));
    assert!(is_recv(&a));
    let a = ex.next(Event::Recv(Some(ScenarioMessage::NotifyDoIpCnxRoutingAck)));
    assert!(matches!(a, Action::Nop));
    let a = ex.next(Event::Proceed);
    assert!(matches!(a, Action::Finished { aborted: false }));
}

#[test]
fn sleep_consumes_keepalives_without_extending() {
    let mut ex = Executor::new(vec![Step::SleepMs(100)]);
    let a = ex.next(Event::Proceed);
    match a {
        Action::SleepKeepalive(ms) => assert_eq!(ms, 100),
        _ => panic!("the sleep step did not sleep"),
    }
    let a = ex.next(Event::Recv(Some(ScenarioMessage::AliveCheckReq)));
    assert!(matches!(a, Action::Send(ScenarioMessage::AliveCheckRsp)));
    let a = ex.next(Event::Sent(true));
    assert!(matches!(a, Action::KeepSleeping));
    // other inbound traffic during the sleep is discarded
    let a = ex.next(Event::Recv(Some(ScenarioMessage::Uds(vec![0x62]))));
    assert!(matches!(a, Action::KeepSleeping));
    let a = ex.next(Event::SleepElapsed);
    assert!(matches!(a, Action::Nop));
    let a = ex.next(Event::Proceed);
    assert!(matches!(a, Action::Finished { aborted: false }));
}

#[test]
fn block_counter_wraps_to_zero() {
    let mut ex = Executor {
        frames: vec![Frame::Block { steps: vec![], idx: 0 }],
        mode: Mode::TdChunkWait { chunk: 5, bsc: 255 },
        last_reply: UdsMessage::RawUds { data: vec![] },
        last_reply_bytes: vec![],
    };
    // a full block goes out under counter 0xff
    let a = ex.next(Event::ChunkBytes(Some(vec![1, 2, 3, 4, 5])));
    assert_eq!(sent_uds(&a), Some(vec![0x36, 0xff, 1, 2, 3, 4, 5]));
    let _ = ex.next(Event::Sent(true));
    let _ = ex.next(Event::Recv(Some(ScenarioMessage::Uds(vec![0x76, 0x01]))));
    let a = ex.next(Event::Proceed);
    assert!(matches!(a, Action::ReadChunk(5)));
    // the next block wraps to counter 0x00
    let a = ex.next(Event::ChunkBytes(Some(vec![9])));
    assert_eq!(sent_uds(&a), Some(vec![0x36, 0x00, 9]));
}

#[test]
fn expect_reply_checks_the_service() {
    let ok = UdsMessage::RawUds { data: vec![0x62, 0xf1, 0x90] };
    assert!(expect_reply(&ok, 0x22).is_ok());
    let nrc = UdsMessage::Nrc { sid: 0x22, nrc: 0x10 };
    assert!(matches!(expect_reply(&nrc, 0x22), Err(ScenarioError::Nrc(0x10))));
    let other = UdsMessage::RawUds { data: vec![0x99] };
    assert!(matches!(
        expect_reply(&other, 0x22),
        Err(ScenarioError::UnexpectedUdsMessage(_))
    ));
}

#[test]
fn transfer_unexpected_reply_fails() {
    let mut ex = Executor {
        frames: vec![Frame::Block { steps: vec![], idx: 0 }],
        mode: Mode::TdChunkWait { chunk: 5, bsc: 1 },
        last_reply: UdsMessage::RawUds { data: vec![] },
        last_reply_bytes: vec![],
    };
    let _ = ex.next(Event::ChunkBytes(Some(vec![1])));
    let _ = ex.next(Event::Sent(true));
    let _ = ex.next(Event::Recv(Some(ScenarioMessage::Uds(vec![0x99, 0x01]))));
    let a = ex.next(Event::Proceed);
    assert!(matches!(
        a,
        Action::Fail(doipdiag::error::ScenarioError::UnexpectedUdsMessage(_))
    ));
}

#[test]
fn transfer_nrc_reply_fails_with_its_code() {
    let mut ex = Executor {
        frames: vec![Frame::Block { steps: vec![], idx: 0 }],
        mode: Mode::TdChunkWait { chunk: 5, bsc: 1 },
        last_reply: UdsMessage::RawUds { data: vec![] },
        last_reply_bytes: vec![],
    };
    let _ = ex.next(Event::ChunkBytes(Some(vec![1])));
    let _ = ex.next(Event::Sent(true));
    let _ = ex.next(Event::Recv(Some(ScenarioMessage::Uds(vec![0x7f, 0x36, 0x31]))));
    let a = ex.next(Event::Proceed);
    assert!(matches!(
        a,
        Action::Fail(doipdiag::error::ScenarioError::Nrc(0x31))
    ));
}
