//! The step executor, as an explicit state machine.
//!
//! The executor interprets the scenario program.  All its waiting — on the
//! two queues, on timers, on files, on the expression evaluator — happens
//! outside the library: each call of [`Executor::next`] consumes one
//! [`Event`] (what the outside world came back with) and decides one
//! [`Action`] (what to do next).  The whole decision is the spec function
//! [`spec_next`]; `next` is proved to implement it exactly.
//!
//! The exchange discipline is strict half-duplex: a request is sent, then
//! replies are consumed until one that is not "response pending" commits,
//! answering alive checks on the way.  A transfer download runs the
//! request-download / transfer-data / transfer-exit protocol with an
//! eight-bit block counter that wraps from `0xff` to `0x00`.

use crate::doip_ops::{ScenarioMessage, ScenarioMessageV};
use crate::error::{ScenarioError, ScenarioErrorV};
use crate::parser::{
    copy_bytes, copy_string, steps_view_seq, lemma_steps_view_index, lemma_steps_view_len, Step,
    StepV, Steps, RawBytes, RawBytesV, Expression,
};
use crate::uds::{
    decode, decode_spec, is_response_pending, sid_of, wire_of, UdsMessage, UdsMessageV,
    NRC_RESPONSE_PENDING, REPORT_SUPPORTED_DTC,
};
use vstd::prelude::*;

verus! {

/// What the outside world hands back to the executor.
#[derive(Debug)]
pub enum Event {
    /// Nothing to report: the last action needed no answer.
    Proceed,
    /// A queue send finished; `false` means the queue is closed.
    Sent(bool),
    /// A queue receive finished; `None` means the queue is closed.
    Recv(Option<ScenarioMessage>),
    /// The running sleep reached its deadline.
    SleepElapsed,
    /// A whole file was read; `None` means the read failed.
    FileBytes(Option<Vec<u8>>),
    /// The transfer file was opened, or not.
    FileOpened(bool),
    /// Up to the asked-for number of bytes were read from the transfer
    /// file; `None` means the read failed.
    ChunkBytes(Option<Vec<u8>>),
    /// An expression was evaluated for effect; `Some` carries the
    /// evaluator's account of a failure.
    EvalDone(Option<String>),
    /// A condition was evaluated to a boolean, or failed.
    EvalBoolDone(Result<bool, String>),
    /// A variable was fetched and projected to bytes, or was missing or
    /// not projectable.
    VarBytes(Option<Vec<u8>>),
}

/// The mathematical value of an [`Event`].
#[verifier::ext_equal]
pub enum EventV {
    Proceed,
    Sent(bool),
    Recv(Option<ScenarioMessageV>),
    SleepElapsed,
    FileBytes(Option<Seq<u8>>),
    FileOpened(bool),
    ChunkBytes(Option<Seq<u8>>),
    EvalDone(Option<Seq<char>>),
    EvalBoolDone(Result<bool, Seq<char>>),
    VarBytes(Option<Seq<u8>>),
}

impl View for Event {
    type V = EventV;

    open spec fn view(&self) -> EventV {
        match self {
            Event::Proceed => EventV::Proceed,
            Event::Sent(ok) => EventV::Sent(*ok),
            Event::Recv(m) => EventV::Recv(
                match m {
                    Some(m) => Some(m@),
                    None => None,
                },
            ),
            Event::SleepElapsed => EventV::SleepElapsed,
            Event::FileBytes(b) => EventV::FileBytes(
                match b {
                    Some(b) => Some(b@),
                    None => None,
                },
            ),
            Event::FileOpened(ok) => EventV::FileOpened(*ok),
            Event::ChunkBytes(b) => EventV::ChunkBytes(
                match b {
                    Some(b) => Some(b@),
                    None => None,
                },
            ),
            Event::EvalDone(d) => EventV::EvalDone(
                match d {
                    Some(d) => Some(d@),
                    None => None,
                },
            ),
            Event::EvalBoolDone(r) => EventV::EvalBoolDone(
                match r {
                    Ok(b) => Ok(*b),
                    Err(d) => Err(d@),
                },
            ),
            Event::VarBytes(b) => EventV::VarBytes(
                match b {
                    Some(b) => Some(b@),
                    None => None,
                },
            ),
        }
    }
}

/// What the executor asks the outside world to do next.
#[derive(Debug)]
pub enum Action {
    /// Nothing; call again with [`Event::Proceed`].
    Nop,
    /// Send one message on the request queue; answer with [`Event::Sent`].
    Send(ScenarioMessage),
    /// Receive one message from the reply queue; answer with
    /// [`Event::Recv`].
    Recv,
    /// Start a sleep of so many milliseconds that still consumes inbound
    /// messages: wait on the reply queue and on the deadline at once, and
    /// answer with [`Event::Recv`] or [`Event::SleepElapsed`], whichever
    /// comes first.
    SleepKeepalive(u64),
    /// Keep waiting on the sleep already started, against the same
    /// deadline: never extend it.
    KeepSleeping,
    /// Sleep so many milliseconds without touching the queues; answer with
    /// [`Event::SleepElapsed`].
    SleepQuiet(u64),
    /// Read the whole named file; answer with [`Event::FileBytes`].
    ReadFile(String),
    /// Open the named transfer file; answer with [`Event::FileOpened`].
    OpenFile(String),
    /// Read up to so many bytes from the open transfer file; answer with
    /// [`Event::ChunkBytes`].
    ReadChunk(usize),
    /// Evaluate an expression for its effects; answer with
    /// [`Event::EvalDone`].
    EvalVoid(String),
    /// Evaluate an expression to a boolean; answer with
    /// [`Event::EvalBoolDone`].
    EvalBool(String),
    /// Fetch a variable and project it to bytes; answer with
    /// [`Event::VarBytes`].
    GetVariable(String),
    /// Bind the `reply` expression variable to these reply bytes; answer
    /// with [`Event::Proceed`].
    BindReply(Vec<u8>),
    /// Print the last reply (these wire bytes) for the user; answer with
    /// [`Event::Proceed`].
    Print(Vec<u8>),
    /// The scenario is over, cleanly or by an abort step.
    Finished { aborted: bool },
    /// The scenario failed.
    Fail(ScenarioError),
}

/// The mathematical value of an [`Action`].
#[verifier::ext_equal]
pub enum ActionV {
    Nop,
    Send(ScenarioMessageV),
    Recv,
    SleepKeepalive(u64),
    KeepSleeping,
    SleepQuiet(u64),
    ReadFile(Seq<char>),
    OpenFile(Seq<char>),
    ReadChunk(usize),
    EvalVoid(Seq<char>),
    EvalBool(Seq<char>),
    GetVariable(Seq<char>),
    BindReply(Seq<u8>),
    Print(Seq<u8>),
    Finished { aborted: bool },
    Fail(ScenarioErrorV),
}

impl View for Action {
    type V = ActionV;

    open spec fn view(&self) -> ActionV {
        match self {
            Action::Nop => ActionV::Nop,
            Action::Send(m) => ActionV::Send(m@),
            Action::Recv => ActionV::Recv,
            Action::SleepKeepalive(ms) => ActionV::SleepKeepalive(*ms),
            Action::KeepSleeping => ActionV::KeepSleeping,
            Action::SleepQuiet(ms) => ActionV::SleepQuiet(*ms),
            Action::ReadFile(f) => ActionV::ReadFile(f@),
            Action::OpenFile(f) => ActionV::OpenFile(f@),
            Action::ReadChunk(n) => ActionV::ReadChunk(*n),
            Action::EvalVoid(e) => ActionV::EvalVoid(e@),
            Action::EvalBool(e) => ActionV::EvalBool(e@),
            Action::GetVariable(n) => ActionV::GetVariable(n@),
            Action::BindReply(b) => ActionV::BindReply(b@),
            Action::Print(b) => ActionV::Print(b@),
            Action::Finished { aborted } => ActionV::Finished { aborted: *aborted },
            Action::Fail(e) => ActionV::Fail(e@),
        }
    }
}

/// Which request a fetched byte payload belongs to.
#[derive(Debug, Clone, Copy)]
pub enum ReqTarget {
    Raw,
    Write { did: u16 },
}

/// The fixed parameters of a running transfer download.
#[derive(Debug, Clone, Copy)]
pub struct TdParams {
    pub compression_method: u8,
    pub encrypt_method: u8,
    pub addr: usize,
    pub memorysize: usize,
}

/// What happens once the exchange in flight commits.
#[derive(Debug, Clone, Copy)]
pub enum Follow {
    /// An ordinary step: move on.
    Plain,
    /// The request-download exchange: expect the block size and start the
    /// block loop.
    TdRequest,
    /// A transfer-data exchange: expect the acknowledgement, then read the
    /// next chunk or, after the last one, leave the transfer.
    TdData { chunk: usize, next_bsc: u8, last: bool },
    /// The transfer-exit exchange: expect the acknowledgement and move on.
    TdExit,
}

/// One level of the running program: the scenario itself or the body of a
/// while loop, with the index of the next step.
#[derive(Debug)]
pub enum Frame {
    Block { steps: Vec<Step>, idx: usize },
    Loop { condition: Expression, body: Vec<Step>, idx: usize },
}

/// The mathematical value of a [`Frame`].
#[verifier::ext_equal]
pub enum FrameV {
    Block { steps: Seq<StepV>, idx: int },
    Loop { condition: Seq<char>, body: Seq<StepV>, idx: int },
}

pub open spec fn frame_view(f: Frame) -> FrameV {
    match f {
        Frame::Block { steps, idx } => FrameV::Block {
            steps: steps_view_seq(steps@),
            idx: idx as int,
        },
        Frame::Loop { condition, body, idx } => FrameV::Loop {
            condition: condition@,
            body: steps_view_seq(body@),
            idx: idx as int,
        },
    }
}

impl View for Frame {
    type V = FrameV;

    open spec fn view(&self) -> FrameV {
        frame_view(*self)
    }
}

pub open spec fn frames_view_seq(s: Seq<Frame>) -> Seq<FrameV>
    decreases s.len(),
{
    if s.len() == 0 {
        Seq::empty()
    } else {
        frames_view_seq(s.drop_last()) + seq![frame_view(s.last())]
    }
}

pub proof fn lemma_frames_view_len(s: Seq<Frame>)
    ensures
        frames_view_seq(s).len() == s.len(),
    decreases s.len(),
{
    if s.len() > 0 {
        lemma_frames_view_len(s.drop_last());
    }
}

pub proof fn lemma_frames_view_push(s: Seq<Frame>, x: Frame)
    ensures
        frames_view_seq(s.push(x)) == frames_view_seq(s) + seq![frame_view(x)],
{
    assert(s.push(x).drop_last() =~= s);
    assert(s.push(x).last() == x);
}

pub proof fn lemma_frames_view_drop_last(s: Seq<Frame>)
    requires
        s.len() > 0,
    ensures
        frames_view_seq(s).len() == s.len(),
        frames_view_seq(s).drop_last() == frames_view_seq(s.drop_last()),
        frames_view_seq(s).last() == frame_view(s.last()),
{
    lemma_frames_view_len(s);
    lemma_frames_view_len(s.drop_last());
    assert(frames_view_seq(s).drop_last() =~= frames_view_seq(s.drop_last()));
}

/// What the executor is doing, and so which event it awaits.
#[derive(Debug)]
pub enum Mode {
    /// Between steps; awaits [`Event::Proceed`].
    Ready,
    /// The request was handed to the queue; awaits [`Event::Sent`].
    ExSend { req: UdsMessage, follow: Follow },
    /// The request is in flight; awaits [`Event::Recv`].
    ExAwait { req: UdsMessage, follow: Follow },
    /// An alive-check answer was handed to the queue while a request is in
    /// flight; awaits [`Event::Sent`].
    ExAliveAck { req: UdsMessage, follow: Follow },
    /// A reply committed and the `reply` variable is being bound; awaits
    /// [`Event::Proceed`].
    ExBindReply { follow: Follow },
    /// Inside a timed sleep that still answers keepalives.
    Sleeping,
    /// An alive-check answer was handed to the queue during a sleep.
    SleepAliveAck,
    /// The disconnect request was handed to the queue.
    DiscSent { wait_after_ms: Option<usize> },
    /// The optional quiet wait after a disconnect.
    DiscSleeping,
    /// Waiting for the routing acknowledgement of the new connection;
    /// until it comes, nothing is sent and everything else is discarded.
    DiscAwaitAck,
    /// Waiting for a whole file to serve as a request payload.
    AwaitFileBytes { target: ReqTarget },
    /// Waiting for a variable projected to bytes to serve as a request
    /// payload.
    AwaitVarBytes { target: ReqTarget },
    /// Waiting for the last reply to be printed.
    AwaitPrint,
    /// Waiting for an expression evaluated for effect.
    EvalWait { expr: String },
    /// Waiting for a loop condition evaluated to a boolean.
    CondWait { cond: String },
    /// Waiting for the transfer file to open.
    TdOpenWait { td: TdParams },
    /// Waiting for the next chunk of the transfer file.
    TdChunkWait { chunk: usize, bsc: u8 },
    /// The run is over; every further event is ignored.
    Done,
}

/// The mathematical value of a [`Mode`].
#[verifier::ext_equal]
pub enum ModeV {
    Ready,
    ExSend { req: UdsMessageV, follow: Follow },
    ExAwait { req: UdsMessageV, follow: Follow },
    ExAliveAck { req: UdsMessageV, follow: Follow },
    ExBindReply { follow: Follow },
    Sleeping,
    SleepAliveAck,
    DiscSent { wait_after_ms: Option<usize> },
    DiscSleeping,
    DiscAwaitAck,
    AwaitFileBytes { target: ReqTarget },
    AwaitVarBytes { target: ReqTarget },
    AwaitPrint,
    EvalWait { expr: Seq<char> },
    CondWait { cond: Seq<char> },
    TdOpenWait { td: TdParams },
    TdChunkWait { chunk: usize, bsc: u8 },
    Done,
}

impl View for Mode {
    type V = ModeV;

    open spec fn view(&self) -> ModeV {
        match self {
            Mode::Ready => ModeV::Ready,
            Mode::ExSend { req, follow } => ModeV::ExSend { req: req@, follow: *follow },
            Mode::ExAwait { req, follow } => ModeV::ExAwait { req: req@, follow: *follow },
            Mode::ExAliveAck { req, follow } => ModeV::ExAliveAck { req: req@, follow: *follow },
            Mode::ExBindReply { follow } => ModeV::ExBindReply { follow: *follow },
            Mode::Sleeping => ModeV::Sleeping,
            Mode::SleepAliveAck => ModeV::SleepAliveAck,
            Mode::DiscSent { wait_after_ms } => ModeV::DiscSent { wait_after_ms: *wait_after_ms },
            Mode::DiscSleeping => ModeV::DiscSleeping,
            Mode::DiscAwaitAck => ModeV::DiscAwaitAck,
            Mode::AwaitFileBytes { target } => ModeV::AwaitFileBytes { target: *target },
            Mode::AwaitVarBytes { target } => ModeV::AwaitVarBytes { target: *target },
            Mode::AwaitPrint => ModeV::AwaitPrint,
            Mode::EvalWait { expr } => ModeV::EvalWait { expr: expr@ },
            Mode::CondWait { cond } => ModeV::CondWait { cond: cond@ },
            Mode::TdOpenWait { td } => ModeV::TdOpenWait { td: *td },
            Mode::TdChunkWait { chunk, bsc } => ModeV::TdChunkWait { chunk: *chunk, bsc: *bsc },
            Mode::Done => ModeV::Done,
        }
    }
}

/// The executor's whole state: the control stack, what it is waiting for,
/// and the last committed reply, typed and as wire bytes.
#[derive(Debug)]
pub struct Executor {
    pub frames: Vec<Frame>,
    pub mode: Mode,
    pub last_reply: UdsMessage,
    pub last_reply_bytes: Vec<u8>,
}

/// The mathematical value of an [`Executor`].
#[verifier::ext_equal]
pub struct ExecutorV {
    pub frames: Seq<FrameV>,
    pub mode: ModeV,
    pub last_reply: UdsMessageV,
    pub last_reply_bytes: Seq<u8>,
}

impl View for Executor {
    type V = ExecutorV;

    open spec fn view(&self) -> ExecutorV {
        ExecutorV {
            frames: frames_view_seq(self.frames@),
            mode: self.mode@,
            last_reply: self.last_reply@,
            last_reply_bytes: self.last_reply_bytes@,
        }
    }
}

/// A fresh executor: the program as the one frame, no reply yet.
pub open spec fn spec_init(program: Seq<StepV>) -> ExecutorV {
    ExecutorV {
        frames: seq![FrameV::Block { steps: program, idx: 0 }],
        mode: ModeV::Ready,
        last_reply: UdsMessageV::RawUds { data: Seq::empty() },
        last_reply_bytes: Seq::empty(),
    }
}

/// The block counter after one block: eight bits, wrapping to zero.
pub open spec fn spec_wrap_inc(b: u8) -> u8 {
    if b == 255 {
        0
    } else {
        (b + 1) as u8
    }
}

/// Issue a request: remember it in flight and hand its wire bytes to the
/// queue.
pub open spec fn spec_start_exchange(s: ExecutorV, m: UdsMessageV, follow: Follow) -> (ExecutorV,
    ActionV) {
    (
        ExecutorV { mode: ModeV::ExSend { req: m, follow }, ..s },
        ActionV::Send(ScenarioMessageV::Uds(wire_of(m))),
    )
}

/// The request a fetched payload completes.
pub open spec fn spec_resolved_request(target: ReqTarget, b: Seq<u8>) -> UdsMessageV {
    match target {
        ReqTarget::Raw => UdsMessageV::RawUds { data: b },
        ReqTarget::Write { did } => UdsMessageV::WriteDIDReq { did, user_data: b },
    }
}

/// Start resolving a byte source: inline bytes issue the request at once,
/// a file or variable is asked for first.
pub open spec fn spec_dispatch_source(s: ExecutorV, data: RawBytesV, target: ReqTarget) -> (
    ExecutorV,
    ActionV,
) {
    match data {
        RawBytesV::Bytes(v) => spec_start_exchange(
            s,
            spec_resolved_request(target, v),
            Follow::Plain,
        ),
        RawBytesV::BinFileName(f) => (
            ExecutorV { mode: ModeV::AwaitFileBytes { target }, ..s },
            ActionV::ReadFile(f),
        ),
        RawBytesV::EvalExprVarname(n) => (
            ExecutorV { mode: ModeV::AwaitVarBytes { target }, ..s },
            ActionV::GetVariable(n),
        ),
    }
}

/// Begin one step.
pub open spec fn spec_dispatch_step(s: ExecutorV, st: StepV) -> (ExecutorV, ActionV) {
    match st {
        StepV::AbortIfNrc { nrc } => {
            if s.last_reply matches UdsMessageV::Nrc { nrc: code, .. } && (nrc is None || nrc
                == Some(code)) {
                (ExecutorV { mode: ModeV::Done, ..s }, ActionV::Finished { aborted: true })
            } else {
                (s, ActionV::Nop)
            }
        },
        StepV::DisconnectDoIp { wait_after_ms } => (
            ExecutorV { mode: ModeV::DiscSent { wait_after_ms }, ..s },
            ActionV::Send(ScenarioMessageV::DisconnectReconnectReq),
        ),
        StepV::EvalExpr { expression } => (
            ExecutorV { mode: ModeV::EvalWait { expr: expression }, ..s },
            ActionV::EvalVoid(expression),
        ),
        StepV::PrintLastReply => (
            ExecutorV { mode: ModeV::AwaitPrint, ..s },
            ActionV::Print(s.last_reply_bytes),
        ),
        StepV::RawUds { data } => spec_dispatch_source(s, data, ReqTarget::Raw),
        StepV::ReadDID { did } => spec_start_exchange(
            s,
            UdsMessageV::ReadDIDReq { did },
            Follow::Plain,
        ),
        StepV::ReadSupportedDTC => spec_start_exchange(
            s,
            UdsMessageV::ReadDTCReq { sub: REPORT_SUPPORTED_DTC },
            Follow::Plain,
        ),
        StepV::SleepMs { ms } => (
            ExecutorV { mode: ModeV::Sleeping, ..s },
            ActionV::SleepKeepalive(ms as u64),
        ),
        StepV::WhileLoop { condition, steps } => (
            ExecutorV {
                frames: s.frames.push(
                    FrameV::Loop { condition, body: steps, idx: steps.len() as int },
                ),
                ..s
            },
            ActionV::Nop,
        ),
        StepV::WriteDID { did, data } => spec_dispatch_source(s, data, ReqTarget::Write { did }),
        StepV::TransferDownload {
            compression_method,
            encrypt_method,
            addr,
            filename,
            memorysize,
        } => (
            ExecutorV {
                mode: ModeV::TdOpenWait {
                    td: TdParams { compression_method, encrypt_method, addr, memorysize },
                },
                ..s
            },
            ActionV::OpenFile(filename),
        ),
    }
}

/// Between steps: run the next step of the innermost frame, re-evaluate a
/// finished loop's condition, or pop a finished block — finishing the run
/// when it was the scenario itself.
pub open spec fn spec_ready(s: ExecutorV) -> (ExecutorV, ActionV) {
    if s.frames.len() == 0 {
        (ExecutorV { mode: ModeV::Done, ..s }, ActionV::Finished { aborted: false })
    } else {
        match s.frames.last() {
            FrameV::Block { steps, idx } => {
                if idx < steps.len() {
                    let s2 = ExecutorV {
                        frames: s.frames.drop_last().push(FrameV::Block { steps, idx: idx + 1 }),
                        ..s
                    };
                    spec_dispatch_step(s2, steps[idx])
                } else if s.frames.len() == 1 {
                    (ExecutorV { mode: ModeV::Done, ..s }, ActionV::Finished { aborted: false })
                } else {
                    (ExecutorV { frames: s.frames.drop_last(), ..s }, ActionV::Nop)
                }
            },
            FrameV::Loop { condition, body, idx } => {
                if idx < body.len() {
                    let s2 = ExecutorV {
                        frames: s.frames.drop_last().push(
                            FrameV::Loop { condition, body, idx: idx + 1 },
                        ),
                        ..s
                    };
                    spec_dispatch_step(s2, body[idx])
                } else {
                    (
                        ExecutorV { mode: ModeV::CondWait { cond: condition }, ..s },
                        ActionV::EvalBool(condition),
                    )
                }
            },
        }
    }
}

/// After a committed exchange: an ordinary step moves on; a transfer stage
/// checks the reply against the expected service — a negative response
/// fails with its code, a wrong service fails as unexpected — and then
/// reads the next chunk, leaves the transfer, or finishes it.
pub open spec fn spec_follow_commit(s: ExecutorV, follow: Follow) -> (ExecutorV, ActionV) {
    match follow {
        Follow::Plain => (ExecutorV { mode: ModeV::Ready, ..s }, ActionV::Nop),
        Follow::TdRequest => match s.last_reply {
            UdsMessageV::RequestDownloadRsp { max_block_size } => {
                if max_block_size >= 2 {
                    (
                        ExecutorV {
                            mode: ModeV::TdChunkWait {
                                chunk: (max_block_size - 2) as usize,
                                bsc: 1,
                            },
                            ..s
                        },
                        ActionV::ReadChunk((max_block_size - 2) as usize),
                    )
                } else {
                    (
                        ExecutorV { mode: ModeV::Done, ..s },
                        ActionV::Fail(ScenarioErrorV::UnexpectedUdsMessage(s.last_reply)),
                    )
                }
            },
            UdsMessageV::Nrc { nrc, .. } => (
                ExecutorV { mode: ModeV::Done, ..s },
                ActionV::Fail(ScenarioErrorV::Nrc(nrc)),
            ),
            _ => (
                ExecutorV { mode: ModeV::Done, ..s },
                ActionV::Fail(ScenarioErrorV::UnexpectedUdsMessage(s.last_reply)),
            ),
        },
        Follow::TdData { chunk, next_bsc, last } => match s.last_reply {
            UdsMessageV::Nrc { nrc, .. } => (
                ExecutorV { mode: ModeV::Done, ..s },
                ActionV::Fail(ScenarioErrorV::Nrc(nrc)),
            ),
            _ => if sid_of(s.last_reply) == 0x76 {
                if last {
                    spec_start_exchange(
                        s,
                        UdsMessageV::TransferExitReq { user_data: Seq::empty() },
                        Follow::TdExit,
                    )
                } else {
                    (
                        ExecutorV { mode: ModeV::TdChunkWait { chunk, bsc: next_bsc }, ..s },
                        ActionV::ReadChunk(chunk),
                    )
                }
            } else {
                (
                    ExecutorV { mode: ModeV::Done, ..s },
                    ActionV::Fail(ScenarioErrorV::UnexpectedUdsMessage(s.last_reply)),
                )
            }
        },
        Follow::TdExit => match s.last_reply {
            UdsMessageV::Nrc { nrc, .. } => (
                ExecutorV { mode: ModeV::Done, ..s },
                ActionV::Fail(ScenarioErrorV::Nrc(nrc)),
            ),
            _ => if sid_of(s.last_reply) == 0x77 {
                (ExecutorV { mode: ModeV::Ready, ..s }, ActionV::Nop)
            } else {
                (
                    ExecutorV { mode: ModeV::Done, ..s },
                    ActionV::Fail(ScenarioErrorV::UnexpectedUdsMessage(s.last_reply)),
                )
            }
        },
    }
}

/// The executor's whole decision: one state and one event in, one state
/// and one action out.  An event that the current mode does not await
/// leaves the state as it is.
pub open spec fn spec_next(s: ExecutorV, ev: EventV) -> (ExecutorV, ActionV) {
    match s.mode {
        ModeV::Ready => match ev {
            EventV::Proceed => spec_ready(s),
            _ => (s, ActionV::Nop),
        },
        ModeV::ExSend { req, follow } => match ev {
            EventV::Sent(true) => (
                ExecutorV { mode: ModeV::ExAwait { req, follow }, ..s },
                ActionV::Recv,
            ),
            EventV::Sent(false) => (
                ExecutorV { mode: ModeV::Done, ..s },
                ActionV::Fail(ScenarioErrorV::NetworkConnectorDead),
            ),
            _ => (s, ActionV::Nop),
        },
        ModeV::ExAwait { req, follow } => match ev {
            EventV::Recv(None) => (
                ExecutorV { mode: ModeV::Done, ..s },
                ActionV::Fail(ScenarioErrorV::NetworkConnectorDead),
            ),
            EventV::Recv(Some(m)) => match m {
                ScenarioMessageV::AliveCheckReq => (
                    ExecutorV { mode: ModeV::ExAliveAck { req, follow }, ..s },
                    ActionV::Send(ScenarioMessageV::AliveCheckRsp),
                ),
                ScenarioMessageV::Uds(b) => match decode_spec(b) {
                    Some(rsp) => {
                        if is_response_pending(rsp) {
                            (s, ActionV::Recv)
                        } else {
                            (
                                ExecutorV {
                                    mode: ModeV::ExBindReply { follow },
                                    last_reply: rsp,
                                    last_reply_bytes: b,
                                    frames: s.frames,
                                },
                                ActionV::BindReply(b),
                            )
                        }
                    },
                    None => (s, ActionV::Recv),
                },
                _ => (s, ActionV::Recv),
            },
            _ => (s, ActionV::Nop),
        },
        ModeV::ExAliveAck { req, follow } => match ev {
            EventV::Sent(_) => (
                ExecutorV { mode: ModeV::ExAwait { req, follow }, ..s },
                ActionV::Recv,
            ),
            _ => (s, ActionV::Nop),
        },
        ModeV::ExBindReply { follow } => match ev {
            EventV::Proceed => spec_follow_commit(s, follow),
            _ => (s, ActionV::Nop),
        },
        ModeV::Sleeping => match ev {
            EventV::SleepElapsed => (ExecutorV { mode: ModeV::Ready, ..s }, ActionV::Nop),
            EventV::Recv(Some(ScenarioMessageV::AliveCheckReq)) => (
                ExecutorV { mode: ModeV::SleepAliveAck, ..s },
                ActionV::Send(ScenarioMessageV::AliveCheckRsp),
            ),
            EventV::Recv(_) => (s, ActionV::KeepSleeping),
            _ => (s, ActionV::Nop),
        },
        ModeV::SleepAliveAck => match ev {
            EventV::Sent(_) => (ExecutorV { mode: ModeV::Sleeping, ..s }, ActionV::KeepSleeping),
            _ => (s, ActionV::Nop),
        },
        ModeV::DiscSent { wait_after_ms } => match ev {
            EventV::Sent(_) => match wait_after_ms {
                Some(n) => (
                    ExecutorV { mode: ModeV::DiscSleeping, ..s },
                    ActionV::SleepQuiet(n as u64),
                ),
                None => (ExecutorV { mode: ModeV::DiscAwaitAck, ..s }, ActionV::Recv),
            },
            _ => (s, ActionV::Nop),
        },
        ModeV::DiscSleeping => match ev {
            EventV::SleepElapsed => (ExecutorV { mode: ModeV::DiscAwaitAck, ..s }, ActionV::Recv),
            _ => (s, ActionV::Nop),
        },
        ModeV::DiscAwaitAck => match ev {
            EventV::Recv(Some(ScenarioMessageV::NotifyDoIpCnxRoutingAck)) => (
                ExecutorV { mode: ModeV::Ready, ..s },
                ActionV::Nop,
            ),
            EventV::Recv(_) => (s, ActionV::Recv),
            _ => (s, ActionV::Nop),
        },
        ModeV::AwaitFileBytes { target } => match ev {
            EventV::FileBytes(Some(b)) => spec_start_exchange(
                s,
                spec_resolved_request(target, b),
                Follow::Plain,
            ),
            EventV::FileBytes(None) => (
                ExecutorV { mode: ModeV::Done, ..s },
                ActionV::Fail(ScenarioErrorV::Io),
            ),
            _ => (s, ActionV::Nop),
        },
        ModeV::AwaitVarBytes { target } => match ev {
            EventV::VarBytes(Some(b)) => spec_start_exchange(
                s,
                spec_resolved_request(target, b),
                Follow::Plain,
            ),
            EventV::VarBytes(None) => (
                ExecutorV { mode: ModeV::Done, ..s },
                ActionV::Fail(ScenarioErrorV::Io),
            ),
            _ => (s, ActionV::Nop),
        },
        ModeV::AwaitPrint => match ev {
            EventV::Proceed => (ExecutorV { mode: ModeV::Ready, ..s }, ActionV::Nop),
            _ => (s, ActionV::Nop),
        },
        ModeV::EvalWait { expr } => match ev {
            EventV::EvalDone(None) => (ExecutorV { mode: ModeV::Ready, ..s }, ActionV::Nop),
            EventV::EvalDone(Some(d)) => (
                ExecutorV { mode: ModeV::Done, ..s },
                ActionV::Fail(ScenarioErrorV::EvalExpr(expr, d)),
            ),
            _ => (s, ActionV::Nop),
        },
        ModeV::CondWait { cond } => match ev {
            EventV::EvalBoolDone(Ok(true)) => {
                if s.frames.len() > 0 && s.frames.last() matches FrameV::Loop { .. } {
                    match s.frames.last() {
                        FrameV::Loop { condition, body, .. } => (
                            ExecutorV {
                                frames: s.frames.drop_last().push(
                                    FrameV::Loop { condition, body, idx: 0 },
                                ),
                                mode: ModeV::Ready,
                                ..s
                            },
                            ActionV::Nop,
                        ),
                        _ => (s, ActionV::Nop),
                    }
                } else {
                    (s, ActionV::Nop)
                }
            },
            EventV::EvalBoolDone(Ok(false)) => {
                if s.frames.len() > 0 && s.frames.last() matches FrameV::Loop { .. } {
                    (
                        ExecutorV { frames: s.frames.drop_last(), mode: ModeV::Ready, ..s },
                        ActionV::Nop,
                    )
                } else {
                    (s, ActionV::Nop)
                }
            },
            EventV::EvalBoolDone(Err(d)) => (
                ExecutorV { mode: ModeV::Done, ..s },
                ActionV::Fail(ScenarioErrorV::EvalExpr(cond, d)),
            ),
            _ => (s, ActionV::Nop),
        },
        ModeV::TdOpenWait { td } => match ev {
            EventV::FileOpened(true) => spec_start_exchange(
                s,
                UdsMessageV::RequestDownloadReq {
                    compression_method: td.compression_method,
                    encryption_method: td.encrypt_method,
                    memory_address_bytes: 4,
                    memory_size_bytes: 4,
                    memory_address: td.addr as u64,
                    memory_size: td.memorysize as u64,
                },
                Follow::TdRequest,
            ),
            EventV::FileOpened(false) => (
                ExecutorV { mode: ModeV::Done, ..s },
                ActionV::Fail(ScenarioErrorV::Io),
            ),
            _ => (s, ActionV::Nop),
        },
        ModeV::TdChunkWait { chunk, bsc } => match ev {
            EventV::ChunkBytes(Some(data)) => spec_start_exchange(
                s,
                UdsMessageV::TransferDataReq { block_sequence_counter: bsc, data },
                Follow::TdData { chunk, next_bsc: spec_wrap_inc(bsc), last: data.len() < chunk },
            ),
            EventV::ChunkBytes(None) => (
                ExecutorV { mode: ModeV::Done, ..s },
                ActionV::Fail(ScenarioErrorV::Io),
            ),
            _ => (s, ActionV::Nop),
        },
        ModeV::Done => (s, ActionV::Nop),
    }
}

impl Executor {
    /// A fresh executor over a program.
    pub fn new(program: Steps) -> (r: Executor)
        ensures
            r@ == spec_init(steps_view_seq(program@)),
    {
        let mut frames: Vec<Frame> = Vec::new();
        let ghost empty = frames@;
        frames.push(Frame::Block { steps: program, idx: 0 });
        proof {
            lemma_frames_view_push(empty, frames@.last());
            assert(frames@ =~= empty.push(frames@.last()));
            assert(frames_view_seq(empty) =~= Seq::<FrameV>::empty());
            assert(frames@.last() == (Frame::Block { steps: program, idx: 0usize }));
            assert(frames_view_seq(frames@) =~= seq![
                FrameV::Block { steps: steps_view_seq(program@), idx: 0 },
            ]);
        }
        let r = Executor {
            frames,
            mode: Mode::Ready,
            last_reply: UdsMessage::RawUds { data: Vec::new() },
            last_reply_bytes: Vec::new(),
        };
        proof {
            assert(r@ =~= spec_init(steps_view_seq(program@)));
        }
        r
    }

    /// Issue a request and remember it in flight.
    fn start_exchange(&mut self, m: UdsMessage, follow: Follow) -> (r: Action)
        ensures
            (final(self)@, r@) == spec_start_exchange(old(self)@, m@, follow),
    {
        let bytes = m.encode();
        self.mode = Mode::ExSend { req: m, follow };
        let r = Action::Send(ScenarioMessage::Uds(bytes));
        proof {
            assert(final(self)@ =~= spec_start_exchange(old(self)@, m@, follow).0);
        }
        r
    }

    /// Start resolving a byte source.
    fn dispatch_source(&mut self, data: RawBytes, target: ReqTarget) -> (r: Action)
        ensures
            (final(self)@, r@) == spec_dispatch_source(old(self)@, data@, target),
    {
        match data {
            RawBytes::Bytes(v) => {
                let m = match target {
                    ReqTarget::Raw => UdsMessage::RawUds { data: v },
                    ReqTarget::Write { did } => UdsMessage::WriteDIDReq { did, user_data: v },
                };
                self.start_exchange(m, Follow::Plain)
            },
            RawBytes::BinFileName(f) => {
                self.mode = Mode::AwaitFileBytes { target };
                let r = Action::ReadFile(f);
                proof {
                    assert(final(self)@ =~= spec_dispatch_source(old(self)@, data@, target).0);
                }
                r
            },
            RawBytes::EvalExprVarname(n) => {
                self.mode = Mode::AwaitVarBytes { target };
                let r = Action::GetVariable(n);
                proof {
                    assert(final(self)@ =~= spec_dispatch_source(old(self)@, data@, target).0);
                }
                r
            },
        }
    }

    /// Begin one step.
    fn dispatch_step(&mut self, st: Step) -> (r: Action)
        ensures
            (final(self)@, r@) == spec_dispatch_step(old(self)@, st@),
    {
        match st {
            Step::AbortIfNrc(a) => {
                let hit = match &self.last_reply {
                    UdsMessage::Nrc { nrc: code, .. } => match a.nrc {
                        Some(want) => *code == want,
                        None => true,
                    },
                    _ => false,
                };
                if hit {
                    self.mode = Mode::Done;
                    let r = Action::Finished { aborted: true };
                    proof {
                        assert(final(self)@ =~= spec_dispatch_step(old(self)@, st@).0);
                    }
                    r
                } else {
                    Action::Nop
                }
            },
            Step::DisconnectDoIp(d) => {
                self.mode = Mode::DiscSent { wait_after_ms: d.wait_after_ms };
                let r = Action::Send(ScenarioMessage::DisconnectReconnectReq);
                proof {
                    assert(final(self)@ =~= spec_dispatch_step(old(self)@, st@).0);
                }
                r
            },
            Step::EvalExpr(e) => {
                let text = copy_string(&e.expression.text);
                self.mode = Mode::EvalWait { expr: e.expression.text };
                let r = Action::EvalVoid(text);
                proof {
                    assert(final(self)@ =~= spec_dispatch_step(old(self)@, st@).0);
                }
                r
            },
            Step::PrintLastReply => {
                let bytes = copy_bytes(&self.last_reply_bytes);
                self.mode = Mode::AwaitPrint;
                let r = Action::Print(bytes);
                proof {
                    assert(final(self)@ =~= spec_dispatch_step(old(self)@, st@).0);
                }
                r
            },
            Step::RawUds(ru) => self.dispatch_source(ru.data, ReqTarget::Raw),
            Step::ReadDID(rd) => self.start_exchange(
                UdsMessage::ReadDIDReq { did: rd.did },
                Follow::Plain,
            ),
            Step::ReadSupportedDTC(_) => self.start_exchange(
                UdsMessage::ReadDTCReq { sub: REPORT_SUPPORTED_DTC },
                Follow::Plain,
            ),
            Step::SleepMs(ms) => {
                self.mode = Mode::Sleeping;
                let r = Action::SleepKeepalive(ms as u64);
                proof {
                    assert(final(self)@ =~= spec_dispatch_step(old(self)@, st@).0);
                }
                r
            },
            Step::WhileLoop(wl) => {
                let ghost before = self.frames@;
                let n = wl.steps.len();
                self.frames.push(Frame::Loop { condition: wl.condition, body: wl.steps, idx: n });
                proof {
                    lemma_frames_view_push(before, self.frames@.last());
                    lemma_steps_view_len(self.frames@.last()->Loop_body@);
                    assert(self.frames@ =~= before.push(self.frames@.last()));
                    assert(final(self)@ =~= spec_dispatch_step(old(self)@, st@).0);
                }
                Action::Nop
            },
            Step::WriteDID(w) => self.dispatch_source(w.data, ReqTarget::Write { did: w.did }),
            Step::TransferDownload(t) => {
                self.mode = Mode::TdOpenWait {
                    td: TdParams {
                        compression_method: t.compression_method,
                        encrypt_method: t.encrypt_method,
                        addr: t.addr,
                        memorysize: t.memorysize,
                    },
                };
                let r = Action::OpenFile(t.filename);
                proof {
                    assert(final(self)@ =~= spec_dispatch_step(old(self)@, st@).0);
                }
                r
            },
        }
    }

    /// Between steps: run the next step, close a loop iteration, or pop a
    /// finished frame.
    fn ready_step(&mut self) -> (r: Action)
        ensures
            (final(self)@, r@) == spec_ready(old(self)@),
    {
        if self.frames.len() == 0 {
            proof {
                lemma_frames_view_len(self.frames@);
            }
            self.mode = Mode::Done;
            let r = Action::Finished { aborted: false };
            proof {
                assert(final(self)@ =~= spec_ready(old(self)@).0);
            }
            return r;
        }
        proof {
            lemma_frames_view_drop_last(self.frames@);
        }
        let ghost s = old(self)@;
        let top = self.frames.pop().unwrap();
        match top {
            Frame::Block { steps, idx } => {
                proof {
                    lemma_steps_view_len(steps@);
                }
                if idx < steps.len() {
                    let st = steps[idx].duplicate();
                    let ghost steps_g = steps@;
                    let ghost popped = self.frames@;
                    self.frames.push(Frame::Block { steps, idx: idx + 1 });
                    proof {
                        lemma_frames_view_push(popped, self.frames@.last());
                        lemma_steps_view_index(steps_g, idx as int);
                        assert(self.frames@ =~= popped.push(self.frames@.last()));
                        assert(s.frames.last() == FrameV::Block {
                            steps: steps_view_seq(steps_g),
                            idx: idx as int,
                        });
                        assert(self@ =~= (ExecutorV {
                            frames: s.frames.drop_last().push(
                                FrameV::Block { steps: steps_view_seq(steps_g), idx: idx + 1 },
                            ),
                            ..s
                        }));
                        assert(st@ == steps_view_seq(steps_g)[idx as int]);
                    }
                    self.dispatch_step(st)
                } else if self.frames.len() == 0 {
                    let ghost popped = self.frames@;
                    self.frames.push(Frame::Block { steps, idx });
                    self.mode = Mode::Done;
                    let r = Action::Finished { aborted: false };
                    proof {
                        lemma_frames_view_push(popped, self.frames@.last());
                        assert(self.frames@ =~= popped.push(self.frames@.last()));
                        assert(frames_view_seq(self.frames@) =~= s.frames);
                        assert(final(self)@ =~= spec_ready(s).0);
                    }
                    r
                } else {
                    proof {
                        assert(self@ =~= (ExecutorV { frames: s.frames.drop_last(), ..s }));
                    }
                    Action::Nop
                }
            },
            Frame::Loop { condition, body, idx } => {
                proof {
                    lemma_steps_view_len(body@);
                }
                if idx < body.len() {
                    let st = body[idx].duplicate();
                    let ghost body_g = body@;
                    let ghost cond_g = condition@;
                    let ghost popped = self.frames@;
                    self.frames.push(Frame::Loop { condition, body, idx: idx + 1 });
                    proof {
                        lemma_frames_view_push(popped, self.frames@.last());
                        lemma_steps_view_index(body_g, idx as int);
                        assert(self.frames@ =~= popped.push(self.frames@.last()));
                        assert(s.frames.last() == FrameV::Loop {
                            condition: cond_g,
                            body: steps_view_seq(body_g),
                            idx: idx as int,
                        });
                        assert(self@ =~= (ExecutorV {
                            frames: s.frames.drop_last().push(
                                FrameV::Loop {
                                    condition: cond_g,
                                    body: steps_view_seq(body_g),
                                    idx: idx + 1,
                                },
                            ),
                            ..s
                        }));
                        assert(st@ == steps_view_seq(body_g)[idx as int]);
                    }
                    self.dispatch_step(st)
                } else {
                    let text = copy_string(&condition.text);
                    let text2 = copy_string(&condition.text);
                    let ghost cond_g = condition@;
                    let ghost body_g = body@;
                    let ghost popped = self.frames@;
                    self.frames.push(Frame::Loop { condition, body, idx });
                    self.mode = Mode::CondWait { cond: text };
                    let r = Action::EvalBool(text2);
                    proof {
                        lemma_frames_view_push(popped, self.frames@.last());
                        assert(self.frames@ =~= popped.push(self.frames@.last()));
                        assert(frames_view_seq(self.frames@) =~= s.frames);
                        assert(s.frames.last() == FrameV::Loop {
                            condition: cond_g,
                            body: steps_view_seq(body_g),
                            idx: idx as int,
                        });
                        assert(text@ == cond_g && text2@ == cond_g);
                        assert(spec_ready(s) == (
                            ExecutorV { mode: ModeV::CondWait { cond: cond_g }, ..s },
                            ActionV::EvalBool(cond_g),
                        ));
                        assert(self@ =~= (ExecutorV {
                            mode: ModeV::CondWait { cond: cond_g },
                            ..s
                        }));
                    }
                    r
                }
            },
        }
    }

    /// After a committed exchange: move on, or run the next transfer stage.
    fn commit_follow(&mut self, follow: Follow) -> (r: Action)
        ensures
            (final(self)@, r@) == spec_follow_commit(old(self)@, follow),
    {
        match follow {
            Follow::Plain => {
                self.mode = Mode::Ready;
                Action::Nop
            },
            Follow::TdRequest => {
                let mbs: Option<usize> = match &self.last_reply {
                    UdsMessage::RequestDownloadRsp { max_block_size } => Some(*max_block_size),
                    _ => None,
                };
                let nrc: Option<u8> = match &self.last_reply {
                    UdsMessage::Nrc { nrc, .. } => Some(*nrc),
                    _ => None,
                };
                match mbs {
                    Some(m) => {
                        if m >= 2 {
                            let chunk = m - 2;
                            self.mode = Mode::TdChunkWait { chunk, bsc: 1 };
                            Action::ReadChunk(chunk)
                        } else {
                            let copy = self.last_reply.duplicate();
                            self.mode = Mode::Done;
                            Action::Fail(ScenarioError::UnexpectedUdsMessage(copy))
                        }
                    },
                    None => match nrc {
                        Some(code) => {
                            self.mode = Mode::Done;
                            Action::Fail(ScenarioError::Nrc(code))
                        },
                        None => {
                            let copy = self.last_reply.duplicate();
                            self.mode = Mode::Done;
                            Action::Fail(ScenarioError::UnexpectedUdsMessage(copy))
                        },
                    },
                }
            },
            Follow::TdData { chunk, next_bsc, last } => {
                let nrc: Option<u8> = match &self.last_reply {
                    UdsMessage::Nrc { nrc, .. } => Some(*nrc),
                    _ => None,
                };
                match nrc {
                    Some(code) => {
                        self.mode = Mode::Done;
                        Action::Fail(ScenarioError::Nrc(code))
                    },
                    None => {
                        let sid = self.last_reply.sid();
                        if sid == 0x76 {
                            if last {
                                self.start_exchange(
                                    UdsMessage::TransferExitReq { user_data: Vec::new() },
                                    Follow::TdExit,
                                )
                            } else {
                                self.mode = Mode::TdChunkWait { chunk, bsc: next_bsc };
                                Action::ReadChunk(chunk)
                            }
                        } else {
                            let copy = self.last_reply.duplicate();
                            self.mode = Mode::Done;
                            Action::Fail(ScenarioError::UnexpectedUdsMessage(copy))
                        }
                    },
                }
            },
            Follow::TdExit => {
                let nrc: Option<u8> = match &self.last_reply {
                    UdsMessage::Nrc { nrc, .. } => Some(*nrc),
                    _ => None,
                };
                match nrc {
                    Some(code) => {
                        self.mode = Mode::Done;
                        Action::Fail(ScenarioError::Nrc(code))
                    },
                    None => {
                        let sid = self.last_reply.sid();
                        if sid == 0x77 {
                            self.mode = Mode::Ready;
                            Action::Nop
                        } else {
                            let copy = self.last_reply.duplicate();
                            self.mode = Mode::Done;
                            Action::Fail(ScenarioError::UnexpectedUdsMessage(copy))
                        }
                    },
                }
            },
        }
    }

    /// Consume one event and decide the next action: exactly
    /// [`spec_next`] of the executor's value and the event's.
    pub fn next(&mut self, ev: Event) -> (r: Action)
        ensures
            final(self)@ == spec_next(old(self)@, ev@).0,
            r@ == spec_next(old(self)@, ev@).1,
    {
        let mut mode = Mode::Done;
        core::mem::swap(&mut self.mode, &mut mode);
        match mode {
            Mode::Ready => match ev {
                Event::Proceed => {
                    self.mode = Mode::Ready;
                    proof {
                        assert(self@ =~= old(self)@);
                    }
                    self.ready_step()
                },
                _ => {
                    self.mode = Mode::Ready;
                    Action::Nop
                },
            },
            Mode::ExSend { req, follow } => match ev {
                Event::Sent(true) => {
                    self.mode = Mode::ExAwait { req, follow };
                    Action::Recv
                },
                Event::Sent(false) => Action::Fail(ScenarioError::NetworkConnectorDead),
                _ => {
                    self.mode = Mode::ExSend { req, follow };
                    Action::Nop
                },
            },
            Mode::ExAwait { req, follow } => match ev {
                Event::Recv(opt) => match opt {
                    None => Action::Fail(ScenarioError::NetworkConnectorDead),
                    Some(m) => match m {
                        ScenarioMessage::AliveCheckReq => {
                            self.mode = Mode::ExAliveAck { req, follow };
                            Action::Send(ScenarioMessage::AliveCheckRsp)
                        },
                        ScenarioMessage::Uds(b) => match decode(&b) {
                            Some(rsp) => {
                                let pending = match &rsp {
                                    UdsMessage::Nrc { nrc, .. } => *nrc == NRC_RESPONSE_PENDING,
                                    _ => false,
                                };
                                proof {
                                    assert(pending == is_response_pending(rsp@));
                                }
                                if pending {
                                    self.mode = Mode::ExAwait { req, follow };
                                    Action::Recv
                                } else {
                                    let out = copy_bytes(&b);
                                    self.last_reply = rsp;
                                    self.last_reply_bytes = b;
                                    self.mode = Mode::ExBindReply { follow };
                                    Action::BindReply(out)
                                }
                            },
                            None => {
                                self.mode = Mode::ExAwait { req, follow };
                                Action::Recv
                            },
                        },
                        _ => {
                            self.mode = Mode::ExAwait { req, follow };
                            Action::Recv
                        },
                    },
                },
                _ => {
                    self.mode = Mode::ExAwait { req, follow };
                    Action::Nop
                },
            },
            Mode::ExAliveAck { req, follow } => match ev {
                Event::Sent(_) => {
                    self.mode = Mode::ExAwait { req, follow };
                    Action::Recv
                },
                _ => {
                    self.mode = Mode::ExAliveAck { req, follow };
                    Action::Nop
                },
            },
            Mode::ExBindReply { follow } => match ev {
                Event::Proceed => self.commit_follow(follow),
                _ => {
                    self.mode = Mode::ExBindReply { follow };
                    Action::Nop
                },
            },
            Mode::Sleeping => match ev {
                Event::SleepElapsed => {
                    self.mode = Mode::Ready;
                    Action::Nop
                },
                Event::Recv(opt) => match opt {
                    Some(ScenarioMessage::AliveCheckReq) => {
                        self.mode = Mode::SleepAliveAck;
                        Action::Send(ScenarioMessage::AliveCheckRsp)
                    },
                    _ => {
                        self.mode = Mode::Sleeping;
                        Action::KeepSleeping
                    },
                },
                _ => {
                    self.mode = Mode::Sleeping;
                    Action::Nop
                },
            },
            Mode::SleepAliveAck => match ev {
                Event::Sent(_) => {
                    self.mode = Mode::Sleeping;
                    Action::KeepSleeping
                },
                _ => {
                    self.mode = Mode::SleepAliveAck;
                    Action::Nop
                },
            },
            Mode::DiscSent { wait_after_ms } => match ev {
                Event::Sent(_) => match wait_after_ms {
                    Some(n) => {
                        self.mode = Mode::DiscSleeping;
                        Action::SleepQuiet(n as u64)
                    },
                    None => {
                        self.mode = Mode::DiscAwaitAck;
                        Action::Recv
                    },
                },
                _ => {
                    self.mode = Mode::DiscSent { wait_after_ms };
                    Action::Nop
                },
            },
            Mode::DiscSleeping => match ev {
                Event::SleepElapsed => {
                    self.mode = Mode::DiscAwaitAck;
                    Action::Recv
                },
                _ => {
                    self.mode = Mode::DiscSleeping;
                    Action::Nop
                },
            },
            Mode::DiscAwaitAck => match ev {
                Event::Recv(opt) => match opt {
                    Some(ScenarioMessage::NotifyDoIpCnxRoutingAck) => {
                        self.mode = Mode::Ready;
                        Action::Nop
                    },
                    _ => {
                        self.mode = Mode::DiscAwaitAck;
                        Action::Recv
                    },
                },
                _ => {
                    self.mode = Mode::DiscAwaitAck;
                    Action::Nop
                },
            },
            Mode::AwaitFileBytes { target } => match ev {
                Event::FileBytes(opt) => match opt {
                    Some(b) => {
                        let m = match target {
                            ReqTarget::Raw => UdsMessage::RawUds { data: b },
                            ReqTarget::Write { did } => UdsMessage::WriteDIDReq {
                                did,
                                user_data: b,
                            },
                        };
                        self.start_exchange(m, Follow::Plain)
                    },
                    None => Action::Fail(ScenarioError::Io),
                },
                _ => {
                    self.mode = Mode::AwaitFileBytes { target };
                    Action::Nop
                },
            },
            Mode::AwaitVarBytes { target } => match ev {
                Event::VarBytes(opt) => match opt {
                    Some(b) => {
                        let m = match target {
                            ReqTarget::Raw => UdsMessage::RawUds { data: b },
                            ReqTarget::Write { did } => UdsMessage::WriteDIDReq {
                                did,
                                user_data: b,
                            },
                        };
                        self.start_exchange(m, Follow::Plain)
                    },
                    None => Action::Fail(ScenarioError::Io),
                },
                _ => {
                    self.mode = Mode::AwaitVarBytes { target };
                    Action::Nop
                },
            },
            Mode::AwaitPrint => match ev {
                Event::Proceed => {
                    self.mode = Mode::Ready;
                    Action::Nop
                },
                _ => {
                    self.mode = Mode::AwaitPrint;
                    Action::Nop
                },
            },
            Mode::EvalWait { expr } => match ev {
                Event::EvalDone(opt) => match opt {
                    None => {
                        self.mode = Mode::Ready;
                        Action::Nop
                    },
                    Some(d) => Action::Fail(ScenarioError::EvalExpr(expr, d)),
                },
                _ => {
                    self.mode = Mode::EvalWait { expr };
                    Action::Nop
                },
            },
            Mode::CondWait { cond } => match ev {
                Event::EvalBoolDone(res) => match res {
                    Ok(true) => {
                        if self.frames.len() > 0 {
                            proof {
                                lemma_frames_view_drop_last(self.frames@);
                            }
                            let ghost s = old(self)@;
                            let top = self.frames.pop().unwrap();
                            match top {
                                Frame::Loop { condition, body, idx: _ } => {
                                    let ghost popped = self.frames@;
                                    self.frames.push(Frame::Loop { condition, body, idx: 0 });
                                    self.mode = Mode::Ready;
                                    proof {
                                        lemma_frames_view_push(popped, self.frames@.last());
                                        assert(self.frames@ =~= popped.push(self.frames@.last()));
                                        assert(self@ =~= spec_next(s, ev@).0);
                                    }
                                    Action::Nop
                                },
                                other => {
                                    let ghost popped = self.frames@;
                                    self.frames.push(other);
                                    self.mode = Mode::CondWait { cond };
                                    proof {
                                        lemma_frames_view_push(popped, self.frames@.last());
                                        assert(self.frames@ =~= popped.push(self.frames@.last()));
                                        assert(frames_view_seq(self.frames@) =~= s.frames);
                                        assert(self@ =~= s);
                                    }
                                    Action::Nop
                                },
                            }
                        } else {
                            proof {
                                lemma_frames_view_len(self.frames@);
                            }
                            self.mode = Mode::CondWait { cond };
                            Action::Nop
                        }
                    },
                    Ok(false) => {
                        if self.frames.len() > 0 {
                            proof {
                                lemma_frames_view_drop_last(self.frames@);
                            }
                            let ghost s = old(self)@;
                            let top = self.frames.pop().unwrap();
                            match top {
                                Frame::Loop { .. } => {
                                    self.mode = Mode::Ready;
                                    proof {
                                        assert(self@ =~= spec_next(s, ev@).0);
                                    }
                                    Action::Nop
                                },
                                other => {
                                    let ghost popped = self.frames@;
                                    self.frames.push(other);
                                    self.mode = Mode::CondWait { cond };
                                    proof {
                                        lemma_frames_view_push(popped, self.frames@.last());
                                        assert(self.frames@ =~= popped.push(self.frames@.last()));
                                        assert(frames_view_seq(self.frames@) =~= s.frames);
                                        assert(self@ =~= s);
                                    }
                                    Action::Nop
                                },
                            }
                        } else {
                            proof {
                                lemma_frames_view_len(self.frames@);
                            }
                            self.mode = Mode::CondWait { cond };
                            Action::Nop
                        }
                    },
                    Err(d) => Action::Fail(ScenarioError::EvalExpr(cond, d)),
                },
                _ => {
                    self.mode = Mode::CondWait { cond };
                    Action::Nop
                },
            },
            Mode::TdOpenWait { td } => match ev {
                Event::FileOpened(true) => self.start_exchange(
                    UdsMessage::RequestDownloadReq {
                        compression_method: td.compression_method,
                        encryption_method: td.encrypt_method,
                        memory_address_bytes: 4,
                        memory_size_bytes: 4,
                        memory_address: td.addr as u64,
                        memory_size: td.memorysize as u64,
                    },
                    Follow::TdRequest,
                ),
                Event::FileOpened(false) => Action::Fail(ScenarioError::Io),
                _ => {
                    self.mode = Mode::TdOpenWait { td };
                    Action::Nop
                },
            },
            Mode::TdChunkWait { chunk, bsc } => match ev {
                Event::ChunkBytes(opt) => match opt {
                    Some(data) => {
                        let last = data.len() < chunk;
                        let next_bsc: u8 = if bsc == 255 {
                            0
                        } else {
                            bsc + 1
                        };
                        proof {
                            assert(next_bsc == spec_wrap_inc(bsc));
                        }
                        self.start_exchange(
                            UdsMessage::TransferDataReq { block_sequence_counter: bsc, data },
                            Follow::TdData { chunk, next_bsc, last },
                        )
                    },
                    None => Action::Fail(ScenarioError::Io),
                },
                _ => {
                    self.mode = Mode::TdChunkWait { chunk, bsc };
                    Action::Nop
                },
            },
            Mode::Done => Action::Nop,
        }
    }
}

/// Whether a committed reply answers a request positively: `None` when its
/// service identifier is the request's with the reply bit set, the
/// negative-response code when the reply is negative, and the whole reply
/// as unexpected otherwise.
pub open spec fn spec_expect_reply(reply: UdsMessageV, request_sid: u8) -> Option<
    ScenarioErrorV,
> {
    if sid_of(reply) == request_sid | 0x40 {
        None
    } else {
        match reply {
            UdsMessageV::Nrc { nrc, .. } => Some(ScenarioErrorV::Nrc(nrc)),
            _ => Some(ScenarioErrorV::UnexpectedUdsMessage(reply)),
        }
    }
}

/// Check a committed reply against the request it should answer.
pub fn expect_reply(reply: &UdsMessage, request_sid: u8) -> (r: Result<(), ScenarioError>)
    ensures
        match r {
            Ok(()) => spec_expect_reply(reply@, request_sid) is None,
            Err(e) => spec_expect_reply(reply@, request_sid) == Some(e@),
        },
{
    let reply_sid = reply.sid();
    if reply_sid == request_sid | 0x40 {
        Ok(())
    } else {
        match reply {
            UdsMessage::Nrc { nrc, .. } => Err(ScenarioError::Nrc(*nrc)),
            _ => Err(ScenarioError::UnexpectedUdsMessage(reply.duplicate())),
        }
    }
}

/// The transfer stages accept and refuse replies exactly as
/// [`spec_expect_reply`] says, against the transfer-data and transfer-exit
/// services.
pub proof fn lemma_transfer_stages_check_replies(s: ExecutorV, chunk: usize, bsc: u8, last: bool)
    ensures
        ({
            let out = spec_follow_commit(s, Follow::TdData { chunk, next_bsc: bsc, last });
            match spec_expect_reply(s.last_reply, 0x36) {
                Some(e) => out == (
                    (ExecutorV { mode: ModeV::Done, ..s }),
                    ActionV::Fail(e),
                ),
                None => !(out.1 matches ActionV::Fail(e2)),
            }
        }),
        ({
            let out = spec_follow_commit(s, Follow::TdExit);
            match spec_expect_reply(s.last_reply, 0x37) {
                Some(e) => out == (
                    (ExecutorV { mode: ModeV::Done, ..s }),
                    ActionV::Fail(e),
                ),
                None => out == ((ExecutorV { mode: ModeV::Ready, ..s }), ActionV::Nop),
            }
        }),
{
    assert(0x36u8 | 0x40u8 == 0x76u8) by (bit_vector);
    assert(0x37u8 | 0x40u8 == 0x77u8) by (bit_vector);
    match s.last_reply {
        UdsMessageV::Nrc { sid, nrc } => {},
        _ => {},
    }
}

/// Every UDS message the executor hands to the request queue carries
/// exactly the wire form of the request it records as in flight: what the
/// session transmits for it is the serialization of the issued request.
pub proof fn lemma_uds_sends_are_wire_form(s: ExecutorV, ev: EventV)
    ensures
        ({
            let (s2, a) = spec_next(s, ev);
            a matches ActionV::Send(ScenarioMessageV::Uds(b)) ==> s2.mode matches ModeV::ExSend {
                req,
                follow,
            } && b == wire_of(req)
        }),
{
}

/// The requests the executor issues for the request-bearing steps are
/// exactly the typed requests those steps describe.
pub proof fn lemma_request_of_step(s: ExecutorV, st: StepV)
    ensures
        (st matches StepV::ReadDID { did } ==> spec_dispatch_step(s, st) == spec_start_exchange(
            s,
            UdsMessageV::ReadDIDReq { did },
            Follow::Plain,
        )),
        (st is ReadSupportedDTC ==> spec_dispatch_step(s, st) == spec_start_exchange(
            s,
            UdsMessageV::ReadDTCReq { sub: REPORT_SUPPORTED_DTC },
            Follow::Plain,
        )),
        (st matches StepV::RawUds { data } ==> (data matches RawBytesV::Bytes(v)
            ==> spec_dispatch_step(s, st) == spec_start_exchange(
            s,
            UdsMessageV::RawUds { data: v },
            Follow::Plain,
        ))),
        (st matches StepV::WriteDID { did, data } ==> (data matches RawBytesV::Bytes(v)
            ==> spec_dispatch_step(s, st) == spec_start_exchange(
            s,
            UdsMessageV::WriteDIDReq { did, user_data: v },
            Follow::Plain,
        ))),
{
    match st {
        StepV::RawUds { data } => {
            assert(spec_dispatch_step(s, st) == spec_dispatch_source(s, data, ReqTarget::Raw));
        },
        StepV::WriteDID { did, data } => {
            assert(spec_dispatch_step(s, st) == spec_dispatch_source(
                s,
                data,
                ReqTarget::Write { did },
            ));
        },
        _ => {},
    }
}

/// Strict half-duplex: while a request is in flight — handed to the queue,
/// awaiting its reply, or answering an alive check on the way — the
/// executor issues no further UDS request; the only message it may still
/// send is the alive-check answer.
pub proof fn lemma_one_request_in_flight(s: ExecutorV, ev: EventV)
    requires
        s.mode matches ModeV::ExSend { .. } || s.mode matches ModeV::ExAwait { .. } || s.mode
            matches ModeV::ExAliveAck { .. },
    ensures
        !(spec_next(s, ev).1 matches ActionV::Send(ScenarioMessageV::Uds(b))),
{
}

/// While a request is in flight, a "response pending" negative response
/// (code `0x78`) completes nothing: the state is unchanged — the reply is
/// not committed, the step does not advance — and the executor keeps
/// receiving, until a reply that is not "response pending" commits.
pub proof fn lemma_response_pending_waits(s: ExecutorV, b: Seq<u8>)
    requires
        s.mode matches ModeV::ExAwait { .. },
        decode_spec(b) matches Some(m) && is_response_pending(m),
    ensures
        spec_next(s, EventV::Recv(Some(ScenarioMessageV::Uds(b)))) == (s, ActionV::Recv),
{
}

/// The first reply that is not "response pending" commits: it becomes the
/// last reply, typed and as bytes, and the `reply` variable is bound.
pub proof fn lemma_final_reply_commits(s: ExecutorV, b: Seq<u8>, m: UdsMessageV)
    requires
        s.mode matches ModeV::ExAwait { .. },
        decode_spec(b) == Some(m),
        !is_response_pending(m),
    ensures
        ({
            let (s2, a) = spec_next(s, EventV::Recv(Some(ScenarioMessageV::Uds(b))));
            &&& s2.mode matches ModeV::ExBindReply { .. }
            &&& s2.last_reply == m
            &&& s2.last_reply_bytes == b
            &&& a == ActionV::BindReply(b)
        }),
{
}

/// After a disconnect step, until the routing acknowledgement of the new
/// connection arrives, the executor sends nothing and discards everything
/// else it receives; the acknowledgement alone lets the scenario go on.
/// With [`lemma_uds_sends_are_wire_form`], the next UDS request is issued
/// strictly after the new connection is routed.
pub proof fn lemma_disconnect_blocks_until_routed(s: ExecutorV, ev: EventV)
    requires
        s.mode is DiscAwaitAck,
    ensures
        !(spec_next(s, ev).1 matches ActionV::Send(m)),
        ev == EventV::Recv(Some(ScenarioMessageV::NotifyDoIpCnxRoutingAck)) ==> spec_next(s, ev).0
            == (ExecutorV { mode: ModeV::Ready, ..s }) && spec_next(s, ev).1 == ActionV::Nop,
        (ev matches EventV::Recv(m) && m != Some(ScenarioMessageV::NotifyDoIpCnxRoutingAck))
            ==> spec_next(s, ev) == (s, ActionV::Recv),
{
}

/// A sleep step asks for one soft-deadline sleep of exactly the step's
/// duration; while sleeping, the executor answers alive checks and
/// discards everything else, and it never starts another sleep — the
/// deadline is never extended.  The sleep ends exactly when the deadline
/// event arrives.
pub proof fn lemma_sleep_never_extends(s: ExecutorV, ms: usize, ev: EventV)
    ensures
        spec_dispatch_step(s, StepV::SleepMs { ms }) == (
            (ExecutorV { mode: ModeV::Sleeping, ..s }),
            ActionV::SleepKeepalive(ms as u64),
        ),
        s.mode is Sleeping || s.mode is SleepAliveAck ==> !(spec_next(s, ev).1
            matches ActionV::SleepKeepalive(n)) && !(spec_next(s, ev).1
            matches ActionV::SleepQuiet(n)),
        s.mode is Sleeping && ev == EventV::SleepElapsed ==> spec_next(s, ev) == (
            (ExecutorV { mode: ModeV::Ready, ..s }),
            ActionV::Nop,
        ),
        s.mode is Sleeping && ev == EventV::Recv(Some(ScenarioMessageV::AliveCheckReq))
            ==> spec_next(s, ev) == (
            (ExecutorV { mode: ModeV::SleepAliveAck, ..s }),
            ActionV::Send(ScenarioMessageV::AliveCheckRsp),
        ),
{
}

/// A while loop's body runs exactly as long as its condition evaluates
/// true: a true condition re-enters the body at its first step, a false
/// one leaves the loop, a failed evaluation fails the scenario with the
/// condition and the evaluator's account.
pub proof fn lemma_while_loop_follows_condition(
    s: ExecutorV,
    cond: Seq<char>,
    condition: Seq<char>,
    body: Seq<StepV>,
    idx: int,
    d: Seq<char>,
)
    requires
        s.mode == (ModeV::CondWait { cond }),
        s.frames.len() > 0,
        s.frames.last() == (FrameV::Loop { condition, body, idx }),
    ensures
        spec_next(s, EventV::EvalBoolDone(Ok(true))) == (
            (ExecutorV {
                frames: s.frames.drop_last().push(FrameV::Loop { condition, body, idx: 0 }),
                mode: ModeV::Ready,
                ..s
            }),
            ActionV::Nop,
        ),
        spec_next(s, EventV::EvalBoolDone(Ok(false))) == (
            (ExecutorV { frames: s.frames.drop_last(), mode: ModeV::Ready, ..s }),
            ActionV::Nop,
        ),
        spec_next(s, EventV::EvalBoolDone(Err(d))) == (
            (ExecutorV { mode: ModeV::Done, ..s }),
            ActionV::Fail(ScenarioErrorV::EvalExpr(cond, d)),
        ),
{
}

/// A while loop checks its condition exactly once at each iteration
/// boundary.  Entering the loop step only pushes the loop frame at its
/// boundary — so the first check comes before any body step — and at a
/// boundary the executor's one action is to evaluate the condition.
/// Together with [`lemma_while_loop_follows_condition`], the body runs
/// once per leading truthful evaluation of the condition and never
/// otherwise.
pub proof fn lemma_loop_checks_before_each_iteration(
    s: ExecutorV,
    condition: Seq<char>,
    body: Seq<StepV>,
    idx: int,
)
    ensures
        spec_dispatch_step(s, StepV::WhileLoop { condition, steps: body }) == (
            (ExecutorV {
                frames: s.frames.push(
                    FrameV::Loop { condition, body, idx: body.len() as int },
                ),
                ..s
            }),
            ActionV::Nop,
        ),
        (s.mode is Ready && s.frames.len() > 0 && s.frames.last() == (FrameV::Loop {
            condition,
            body,
            idx,
        }) && idx >= body.len()) ==> spec_ready(s) == (
            (ExecutorV { mode: ModeV::CondWait { cond: condition }, ..s }),
            ActionV::EvalBool(condition),
        ),
{
}

/// Block counters of a transfer download wrap at the top of their eight
/// bits: after `0xff` comes `0x00`.
pub proof fn lemma_block_counter_wraps()
    ensures
        spec_wrap_inc(0xff) == 0x00,
        forall|b: u8| b < 0xff ==> spec_wrap_inc(b) == b + 1,
{
}

} // verus!
