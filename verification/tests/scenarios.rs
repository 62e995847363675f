//! End-to-end scenario runs: the executor state machine driven against the
//! reference ECU, with the session decisions and the expression evaluator
//! in the loop.

use std::collections::HashMap;
use std::collections::VecDeque;

use doipdiag::doip_ops::{self, DoIpMessage, NotifyState, ScenarioMessage, SendAction};
use doipdiag::ecu::ecu_reply;
use doipdiag::executor::{Action, Event, Executor};
use doipdiag::exprvalue::{get_tuple_variable, ExprValue};
use doipdiag::parser::{
    AbortIfNrc, DisconnectDoIp, EvalExpr, Expression, RawBytes, RawUds, ReadDID, ReadSupportedDTC,
    Step, TransferDownload, WhileLoop, WriteDID,
};

use evalexpr::{
    build_operator_tree, Context, ContextWithMutableVariables, DefaultNumericTypes,
    HashMapContext, Value,
};

#[derive(Debug)]
struct Sim {
    observed: Vec<Vec<u8>>,
    connections: usize,
    sleeps: Vec<u64>,
}

fn expr(s: &str) -> Expression {
    Expression { text: s.to_string() }
}

fn value_to_model(v: &Value<DefaultNumericTypes>) -> ExprValue {
    match v {
        Value::Int(i) => ExprValue::Int(*i),
        Value::String(s) => ExprValue::Str(s.as_bytes().to_vec()),
        Value::Tuple(t) => ExprValue::Tuple(t.iter().map(value_to_model).collect()),
        _ => ExprValue::Other,
    }
}

fn run_scenario(steps: Vec<Step>, files: &[(&str, &[u8])]) -> Result<Sim, String> {
    let file_map: HashMap<String, Vec<u8>> = files
        .iter()
        .map(|(n, c)| (n.to_string(), c.to_vec()))
        .collect();
    let mut inbox: VecDeque<ScenarioMessage> = VecDeque::new();
    let mut notify = NotifyState::Idle;
    let mut ctx: HashMapContext<DefaultNumericTypes> = HashMapContext::new();
    let mut open_file: Option<(Vec<u8>, usize)> = None;
    let mut sim = Sim { observed: Vec::new(), connections: 1, sleeps: Vec::new() };
    let mut ex = Executor::new(steps);
    let mut ev = Event::Proceed;
    for _ in 0..100000 {
        let act = ex.next(ev);
        ev = match act {
            Action::Nop => Event::Proceed,
            Action::Send(msg) => match doip_ops::send_dispatch(msg) {
                SendAction::TransmitDiagnostic(bytes) => {
                    sim.observed.push(bytes.clone());
                    let reply = ecu_reply(&bytes);
                    match doip_ops::recv_map(DoIpMessage::DiagnosticMessage(reply)) {
                        Ok(Some(m)) => inbox.push_back(m),
                        Ok(None) => {}
                        Err(_) => return Err("codec refused the reply".to_string()),
                    }
                    Event::Sent(true)
                }
                SendAction::TransmitAliveCheckRsp => Event::Sent(true),
                SendAction::Reconnect => {
                    sim.connections += 1;
                    notify = notify.after_reconnect();
                    loop {
                        let (m, st) = notify.drain_notification();
                        notify = st;
                        match m {
                            Some(m) => inbox.push_back(m),
                            None => break,
                        }
                    }
                    Event::Sent(true)
                }
                SendAction::Nothing => Event::Sent(true),
            },
            Action::Recv => match inbox.pop_front() {
                Some(m) => Event::Recv(Some(m)),
                None => panic!("the executor waits but nothing is inbound"),
            },
            Action::SleepKeepalive(ms) => {
                sim.sleeps.push(ms);
                Event::SleepElapsed
            }
            Action::KeepSleeping => Event::SleepElapsed,
            Action::SleepQuiet(_) => Event::SleepElapsed,
            Action::ReadFile(name) => Event::FileBytes(file_map.get(&name).cloned()),
            Action::OpenFile(name) => match file_map.get(&name) {
                Some(content) => {
                    open_file = Some((content.clone(), 0));
                    Event::FileOpened(true)
                }
                None => Event::FileOpened(false),
            },
            Action::ReadChunk(n) => {
                let (content, pos) = open_file.as_mut().expect("no transfer file is open");
                let end = (*pos + n).min(content.len());
                let chunk = content[*pos..end].to_vec();
                *pos = end;
                Event::ChunkBytes(Some(chunk))
            }
            Action::EvalVoid(src) => match build_operator_tree::<DefaultNumericTypes>(&src) {
                Ok(node) => match node.eval_empty_with_context_mut(&mut ctx) {
                    Ok(_) => Event::EvalDone(None),
                    Err(e) => Event::EvalDone(Some(e.to_string())),
                },
                Err(e) => Event::EvalDone(Some(e.to_string())),
            },
            Action::EvalBool(src) => match build_operator_tree::<DefaultNumericTypes>(&src) {
                Ok(node) => match node.eval_boolean_with_context_mut(&mut ctx) {
                    Ok(b) => Event::EvalBoolDone(Ok(b)),
                    Err(e) => Event::EvalBoolDone(Err(e.to_string())),
                },
                Err(e) => Event::EvalBoolDone(Err(e.to_string())),
            },
            Action::GetVariable(name) => {
                let model = ctx.get_value(&name).map(value_to_model);
                Event::VarBytes(get_tuple_variable(model.as_ref()))
            }
            Action::BindReply(bytes) => {
                let tuple: Vec<Value<DefaultNumericTypes>> =
                    bytes.iter().map(|b| Value::Int(*b as i64)).collect();
                ctx.set_value("reply".to_string(), Value::Tuple(tuple))
                    .expect("cannot bind the reply variable");
                Event::Proceed
            }
            Action::Print(_) => Event::Proceed,
            Action::Finished { .. } => return Ok(sim),
            Action::Fail(e) => return Err(format!("{:?}", e)),
        };
    }
    panic!("the scenario did not finish");
}

fn uds_seq(strs: &[&str]) -> Vec<Vec<u8>> {
    strs.iter()
        .map(|s| {
            s.split_ascii_whitespace()
                .map(|t| u8::from_str_radix(t, 16).unwrap())
                .collect::<Vec<u8>>()
        })
        .collect()
}

fn raw_uds_bytes(bytes: &[u8]) -> Step {
    Step::RawUds(RawUds { data: RawBytes::Bytes(bytes.to_vec()) })
}

#[test]
fn abortifnrc() {
    let steps = vec![
        raw_uds_bytes(&[0x22, 0xff, 0xff]),
        raw_uds_bytes(&[0x22, 0xff, 0xff]),
        Step::AbortIfNrc(AbortIfNrc { nrc: None }),
        raw_uds_bytes(&[0x22, 0xff, 0xff]),
    ];
    let sim = run_scenario(steps, &[]).unwrap();
    assert_eq!(sim.observed, uds_seq(&["22 ff ff", "22 ff ff"]));
}

#[test]
fn abortifnrc10() {
    let steps = vec![
        raw_uds_bytes(&[0x22, 0xff, 0xff]),
        raw_uds_bytes(&[0x22, 0xff, 0xff]),
        Step::AbortIfNrc(AbortIfNrc { nrc: Some(0x10) }),
        raw_uds_bytes(&[0x22, 0xff, 0xff]),
    ];
    let sim = run_scenario(steps, &[]).unwrap();
    assert_eq!(sim.observed, uds_seq(&["22 ff ff", "22 ff ff"]));
}

#[test]
fn abortifnrc11() {
    let steps = vec![
        raw_uds_bytes(&[0x22, 0xff, 0xff]),
        raw_uds_bytes(&[0x22, 0xff, 0xff]),
        Step::AbortIfNrc(AbortIfNrc { nrc: Some(0x11) }),
        raw_uds_bytes(&[0x22, 0xff, 0xff]),
    ];
    let sim = run_scenario(steps, &[]).unwrap();
    assert_eq!(sim.observed, uds_seq(&["22 ff ff", "22 ff ff", "22 ff ff"]));
}

#[test]
fn discon_1s() {
    let steps = vec![
        raw_uds_bytes(&[0x22, 0xff, 0xff]),
        Step::DisconnectDoIp(DisconnectDoIp { wait_after_ms: Some(1000) }),
        raw_uds_bytes(&[0x22, 0xff, 0xff]),
    ];
    let sim = run_scenario(steps, &[]).unwrap();
    assert_eq!(sim.observed, uds_seq(&["22 ff ff", "22 ff ff"]));
    assert_eq!(sim.connections, 2);
}

#[test]
fn discon_none() {
    let steps = vec![
        raw_uds_bytes(&[0x22, 0xff, 0xff]),
        Step::DisconnectDoIp(DisconnectDoIp { wait_after_ms: Some(1000) }),
        raw_uds_bytes(&[0x22, 0xff, 0xff]),
    ];
    let sim = run_scenario(steps, &[]).unwrap();
    assert_eq!(sim.observed, uds_seq(&["22 ff ff", "22 ff ff"]));
    assert_eq!(sim.connections, 2);
}

#[test]
fn evalexpr_evalexpr() {
    let steps = vec![
        Step::EvalExpr(EvalExpr { expression: expr("vin = \"VF1R\";") }),
        Step::WriteDID(WriteDID {
            did: 0xf190,
            data: RawBytes::EvalExprVarname("vin".to_string()),
        }),
    ];
    let sim = run_scenario(steps, &[]).unwrap();
    assert_eq!(sim.observed, uds_seq(&["2e f1 90 56 46 31 52"]));
}

#[test]
fn printlastreply() {
    let steps = vec![
        Step::ReadDID(ReadDID { did: 0xf190 }),
        Step::PrintLastReply,
    ];
    let sim = run_scenario(steps, &[]).unwrap();
    assert_eq!(sim.observed, uds_seq(&["22 f1 90"]));
}

#[test]
fn rawuds_bytes() {
    let steps = vec![raw_uds_bytes(&[0x22, 0xf1, 0x90])];
    let sim = run_scenario(steps, &[]).unwrap();
    assert_eq!(sim.observed, uds_seq(&["22 f1 90"]));
}

#[test]
fn rawuds_filename() {
    let steps = vec![Step::RawUds(RawUds {
        data: RawBytes::BinFileName("/tmp/read_vin.bin".to_string()),
    })];
    let sim = run_scenario(steps, &[("/tmp/read_vin.bin", &[0x22, 0xf1, 0x90])]).unwrap();
    assert_eq!(sim.observed, uds_seq(&["22 f1 90"]));
}

#[test]
fn rawuds_evalexpr() {
    let steps = vec![
        Step::EvalExpr(EvalExpr { expression: expr("wvin = (0x2e, 0xf1, 0x90, \"VF1R\");") }),
        Step::RawUds(RawUds { data: RawBytes::EvalExprVarname("wvin".to_string()) }),
    ];
    let sim = run_scenario(steps, &[]).unwrap();
    assert_eq!(sim.observed, uds_seq(&["2e f1 90 56 46 31 52"]));
}

#[test]
fn readdid_did() {
    let steps = vec![Step::ReadDID(ReadDID { did: 0xf190 })];
    let sim = run_scenario(steps, &[]).unwrap();
    assert_eq!(sim.observed, uds_seq(&["22 f1 90"]));
}

#[test]
fn supported_dtc_report_is_requested() {
    let steps = vec![Step::ReadSupportedDTC(ReadSupportedDTC {})];
    let sim = run_scenario(steps, &[]).unwrap();
    assert_eq!(sim.observed, uds_seq(&["19 0a"]));
}

#[test]
fn sleepms_did() {
    let steps = vec![Step::SleepMs(250)];
    let sim = run_scenario(steps, &[]).unwrap();
    assert_eq!(sim.observed, uds_seq(&[]));
    assert_eq!(sim.sleeps, vec![250]);
}

#[test]
fn transferdownload() {
    let steps = vec![Step::TransferDownload(TransferDownload {
        compression_method: 1,
        encrypt_method: 2,
        addr: 19,
        filename: "/tmp/FD01.bin".to_string(),
        memorysize: 4,
    })];
    let sim = run_scenario(steps, &[("/tmp/FD01.bin", &[0xde, 0xad, 0xba, 0xbe])]).unwrap();
    assert_eq!(
        sim.observed,
        uds_seq(&[
            "34 12 44 00 00 00 13 00 00 00 04",
            "36 01 de ad ba be",
            "37",
        ])
    );
}

#[test]
fn whileloop() {
    let steps = vec![
        Step::EvalExpr(EvalExpr { expression: expr("vin = \"VF1R\"; idx = 0;") }),
        Step::WhileLoop(WhileLoop {
            condition: expr("idx < 3"),
            steps: vec![
                Step::ReadDID(ReadDID { did: 0xf190 }),
                Step::EvalExpr(EvalExpr { expression: expr("idx = idx + 1;") }),
            ],
        }),
    ];
    let sim = run_scenario(steps, &[]).unwrap();
    assert_eq!(sim.observed, uds_seq(&["22 f1 90", "22 f1 90", "22 f1 90"]));
}

#[test]
fn writedid_bytes() {
    let steps = vec![Step::WriteDID(WriteDID {
        did: 0xf190,
        data: RawBytes::Bytes(vec![0x56, 0x46, 0x31, 0x52]),
    })];
    let sim = run_scenario(steps, &[]).unwrap();
    assert_eq!(sim.observed, uds_seq(&["2e f1 90 56 46 31 52"]));
}

#[test]
fn writedid_filename() {
    let steps = vec![Step::WriteDID(WriteDID {
        did: 0xf190,
        data: RawBytes::BinFileName("/tmp/vin.bin".to_string()),
    })];
    let sim = run_scenario(steps, &[("/tmp/vin.bin", &[0x56, 0x46, 0x31, 0x52])]).unwrap();
    assert_eq!(sim.observed, uds_seq(&["2e f1 90 56 46 31 52"]));
}

#[test]
fn writedid_evalexpr() {
    let steps = vec![
        Step::EvalExpr(EvalExpr { expression: expr("wvin = \"VF1R\";") }),
        Step::WriteDID(WriteDID {
            did: 0xf190,
            data: RawBytes::EvalExprVarname("wvin".to_string()),
        }),
    ];
    let sim = run_scenario(steps, &[]).unwrap();
    assert_eq!(sim.observed, uds_seq(&["2e f1 90 56 46 31 52"]));
}

#[test]
fn transfer_of_two_blocks_counts_them() {
    // the granted block size is 0x0ffa, so a chunk holds 0x0ff8 bytes; a
    // file one byte longer needs a second block under the next counter
    let mut content = vec![0xaau8; 0x0ff8];
    content.push(0xbb);
    let steps = vec![Step::TransferDownload(TransferDownload {
        compression_method: 1,
        encrypt_method: 0,
        addr: 0x4000,
        filename: "big.bin".to_string(),
        memorysize: 0x0ff9,
    })];
    let sim = run_scenario(steps, &[("big.bin", &content)]).unwrap();
    assert_eq!(sim.observed.len(), 4);
    assert_eq!(
        sim.observed[0],
        uds_seq(&["34 10 44 00 00 40 00 00 00 0f f9"])[0]
    );
    let mut first = vec![0x36u8, 0x01];
    first.extend(vec![0xaau8; 0x0ff8]);
    assert_eq!(sim.observed[1], first);
    assert_eq!(sim.observed[2], vec![0x36, 0x02, 0xbb]);
    assert_eq!(sim.observed[3], vec![0x37]);
}

#[test]
fn while_loop_with_missing_variable_fails() {
    let steps = vec![Step::WhileLoop(WhileLoop {
        condition: expr("nowhere < 3"),
        steps: vec![Step::ReadDID(ReadDID { did: 0xf190 })],
    })];
    let err = run_scenario(steps, &[]).unwrap_err();
    assert!(err.contains("EvalExpr"));
}

#[test]
fn broken_expression_fails_the_scenario() {
    let steps = vec![Step::EvalExpr(EvalExpr { expression: expr("idx = idx +") })];
    let err = run_scenario(steps, &[]).unwrap_err();
    assert!(err.contains("EvalExpr"));
}

#[test]
fn missing_file_fails_with_io() {
    let steps = vec![Step::RawUds(RawUds {
        data: RawBytes::BinFileName("/tmp/absent.bin".to_string()),
    })];
    let err = run_scenario(steps, &[]).unwrap_err();
    assert!(err.contains("Io"));
}

#[test]
fn missing_variable_fails_with_io() {
    let steps = vec![Step::WriteDID(WriteDID {
        did: 0xf190,
        data: RawBytes::EvalExprVarname("absent".to_string()),
    })];
    let err = run_scenario(steps, &[]).unwrap_err();
    assert!(err.contains("Io"));
}
