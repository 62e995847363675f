//! The scenario step model.
//!
//! A scenario is an ordered list of typed steps.  The scenario document
//! loader and the expression evaluator live outside the library; here the
//! steps carry expressions as their source text and byte sources as typed
//! references, and the executor resolves them through explicit actions.

use vstd::prelude::*;

verus! {

/// An expression of the embedded expression language, kept as its source
/// text; the evaluator outside compiles and runs it.
#[derive(Debug)]
pub struct Expression {
    pub text: String,
}

impl View for Expression {
    type V = Seq<char>;

    open spec fn view(&self) -> Seq<char> {
        self.text@
    }
}

/// Where the bytes of a request come from: written inline, read from a
/// file, or taken from an expression variable.
#[derive(Debug)]
pub enum RawBytes {
    Bytes(Vec<u8>),
    BinFileName(String),
    EvalExprVarname(String),
}

/// The mathematical value of a [`RawBytes`].
pub enum RawBytesV {
    Bytes(Seq<u8>),
    BinFileName(Seq<char>),
    EvalExprVarname(Seq<char>),
}

impl View for RawBytes {
    type V = RawBytesV;

    open spec fn view(&self) -> RawBytesV {
        match self {
            RawBytes::Bytes(v) => RawBytesV::Bytes(v@),
            RawBytes::BinFileName(f) => RawBytesV::BinFileName(f@),
            RawBytes::EvalExprVarname(n) => RawBytesV::EvalExprVarname(n@),
        }
    }
}

#[derive(Debug)]
pub struct AbortIfNrc {
    pub nrc: Option<u8>,
}

#[derive(Debug)]
pub struct DisconnectDoIp {
    pub wait_after_ms: Option<usize>,
}

#[derive(Debug)]
pub struct EvalExpr {
    pub expression: Expression,
}

#[derive(Debug)]
pub struct RawUds {
    pub data: RawBytes,
}

#[derive(Debug)]
pub struct ReadDID {
    pub did: u16,
}

#[derive(Debug)]
pub struct ReadSupportedDTC {}

#[derive(Debug)]
pub struct WriteDID {
    pub did: u16,
    pub data: RawBytes,
}

#[derive(Debug)]
pub struct TransferDownload {
    pub compression_method: u8,
    pub encrypt_method: u8,
    pub addr: usize,
    pub filename: String,
    pub memorysize: usize,
}

#[derive(Debug)]
pub struct WhileLoop {
    pub condition: Expression,
    pub steps: Vec<Step>,
}

/// One step of a scenario.
#[derive(Debug)]
pub enum Step {
    AbortIfNrc(AbortIfNrc),
    DisconnectDoIp(DisconnectDoIp),
    EvalExpr(EvalExpr),
    PrintLastReply,
    RawUds(RawUds),
    ReadDID(ReadDID),
    ReadSupportedDTC(ReadSupportedDTC),
    SleepMs(usize),
    WhileLoop(WhileLoop),
    WriteDID(WriteDID),
    TransferDownload(TransferDownload),
}

pub type Steps = Vec<Step>;

/// The mathematical value of a [`Step`].
pub enum StepV {
    AbortIfNrc { nrc: Option<u8> },
    DisconnectDoIp { wait_after_ms: Option<usize> },
    EvalExpr { expression: Seq<char> },
    PrintLastReply,
    RawUds { data: RawBytesV },
    ReadDID { did: u16 },
    ReadSupportedDTC,
    SleepMs { ms: usize },
    WhileLoop { condition: Seq<char>, steps: Seq<StepV> },
    WriteDID { did: u16, data: RawBytesV },
    TransferDownload {
        compression_method: u8,
        encrypt_method: u8,
        addr: usize,
        filename: Seq<char>,
        memorysize: usize,
    },
}

pub open spec fn step_view(s: Step) -> StepV
    decreases s,
{
    match s {
        Step::AbortIfNrc(a) => StepV::AbortIfNrc { nrc: a.nrc },
        Step::DisconnectDoIp(d) => StepV::DisconnectDoIp { wait_after_ms: d.wait_after_ms },
        Step::EvalExpr(e) => StepV::EvalExpr { expression: e.expression@ },
        Step::PrintLastReply => StepV::PrintLastReply,
        Step::RawUds(r) => StepV::RawUds { data: r.data@ },
        Step::ReadDID(r) => StepV::ReadDID { did: r.did },
        Step::ReadSupportedDTC(_) => StepV::ReadSupportedDTC,
        Step::SleepMs(ms) => StepV::SleepMs { ms },
        Step::WhileLoop(wl) => StepV::WhileLoop {
            condition: wl.condition@,
            steps: steps_view_seq(wl.steps@),
        },
        Step::WriteDID(w) => StepV::WriteDID { did: w.did, data: w.data@ },
        Step::TransferDownload(t) => StepV::TransferDownload {
            compression_method: t.compression_method,
            encrypt_method: t.encrypt_method,
            addr: t.addr,
            filename: t.filename@,
            memorysize: t.memorysize,
        },
    }
}

pub open spec fn steps_view_seq(s: Seq<Step>) -> Seq<StepV>
    decreases s,
{
    if s.len() == 0 {
        Seq::empty()
    } else {
        steps_view_seq(s.drop_last()) + seq![step_view(s.last())]
    }
}

pub open spec fn steps_view(v: Vec<Step>) -> Seq<StepV> {
    steps_view_seq(v@)
}

pub proof fn lemma_steps_view_len(s: Seq<Step>)
    ensures
        steps_view_seq(s).len() == s.len(),
    decreases s.len(),
{
    if s.len() > 0 {
        lemma_steps_view_len(s.drop_last());
    }
}

pub proof fn lemma_steps_view_index(s: Seq<Step>, i: int)
    requires
        0 <= i < s.len(),
    ensures
        steps_view_seq(s).len() == s.len(),
        steps_view_seq(s)[i] == step_view(s[i]),
    decreases s.len(),
{
    lemma_steps_view_len(s);
    if i < s.len() - 1 {
        lemma_steps_view_index(s.drop_last(), i);
        lemma_steps_view_len(s.drop_last());
    }
}

pub proof fn lemma_steps_view_push(s: Seq<Step>, x: Step)
    ensures
        steps_view_seq(s.push(x)) == steps_view_seq(s) + seq![step_view(x)],
{
    assert(s.push(x).drop_last() =~= s);
    assert(s.push(x).last() == x);
}

impl View for Step {
    type V = StepV;

    open spec fn view(&self) -> StepV {
        step_view(*self)
    }
}

pub(crate) fn copy_string(s: &String) -> (r: String)
    ensures
        r@ == s@,
{
    s.as_str().to_owned()
}

pub(crate) fn copy_bytes(v: &Vec<u8>) -> (r: Vec<u8>)
    ensures
        r@ == v@,
{
    let mut r: Vec<u8> = Vec::new();
    let mut i: usize = 0;
    while i < v.len()
        invariant
            i <= v@.len(),
            r@ == v@.take(i as int),
        decreases v@.len() - i,
    {
        r.push(v[i]);
        i += 1;
        assert(r@ =~= v@.take(i as int));
    }
    assert(r@ =~= v@);
    r
}

impl Expression {
    pub fn duplicate(&self) -> (r: Expression)
        ensures
            r@ == self@,
    {
        Expression { text: copy_string(&self.text) }
    }
}

impl RawBytes {
    pub fn duplicate(&self) -> (r: RawBytes)
        ensures
            r@ == self@,
    {
        match self {
            RawBytes::Bytes(v) => RawBytes::Bytes(copy_bytes(v)),
            RawBytes::BinFileName(f) => RawBytes::BinFileName(copy_string(f)),
            RawBytes::EvalExprVarname(n) => RawBytes::EvalExprVarname(copy_string(n)),
        }
    }
}

impl Step {
    /// A fresh copy with the same value.
    pub fn duplicate(&self) -> (r: Step)
        ensures
            r@ == self@,
        decreases *self,
    {
        match self {
            Step::AbortIfNrc(a) => Step::AbortIfNrc(AbortIfNrc { nrc: a.nrc }),
            Step::DisconnectDoIp(d) => Step::DisconnectDoIp(
                DisconnectDoIp { wait_after_ms: d.wait_after_ms },
            ),
            Step::EvalExpr(e) => Step::EvalExpr(EvalExpr { expression: e.expression.duplicate() }),
            Step::PrintLastReply => Step::PrintLastReply,
            Step::RawUds(r) => Step::RawUds(RawUds { data: r.data.duplicate() }),
            Step::ReadDID(r) => Step::ReadDID(ReadDID { did: r.did }),
            Step::ReadSupportedDTC(_) => Step::ReadSupportedDTC(ReadSupportedDTC {}),
            Step::SleepMs(ms) => Step::SleepMs(*ms),
            Step::WhileLoop(wl) => Step::WhileLoop(
                WhileLoop {
                    condition: wl.condition.duplicate(),
                    steps: duplicate_steps(&wl.steps),
                },
            ),
            Step::WriteDID(w) => Step::WriteDID(
                WriteDID { did: w.did, data: w.data.duplicate() },
            ),
            Step::TransferDownload(t) => Step::TransferDownload(
                TransferDownload {
                    compression_method: t.compression_method,
                    encrypt_method: t.encrypt_method,
                    addr: t.addr,
                    filename: copy_string(&t.filename),
                    memorysize: t.memorysize,
                },
            ),
        }
    }
}

/// A fresh copy of a step list with the same values.
pub fn duplicate_steps(v: &Vec<Step>) -> (r: Vec<Step>)
    ensures
        steps_view(r) == steps_view(*v),
    decreases *v,
{
    let mut r: Vec<Step> = Vec::new();
    let mut i: usize = 0;
    while i < v.len()
        invariant
            i <= v@.len(),
            steps_view_seq(r@) == steps_view_seq(v@.take(i as int)),
        decreases v@.len() - i,
    {
        let ghost prev = r@;
        let d = v[i].duplicate();
        r.push(d);
        proof {
            lemma_steps_view_push(prev, d);
            lemma_steps_view_push(v@.take(i as int), v@[i as int]);
            assert(v@.take(i + 1 as int) =~= v@.take(i as int).push(v@[i as int]));
            assert(r@ =~= prev.push(d));
        }
        i += 1;
    }
    proof {
        assert(v@.take(i as int) =~= v@);
    }
    r
}

/// What a byte source resolves to: bytes it carries itself, or the file or
/// expression variable whose content a caller must fetch and hand back.
#[derive(Debug)]
pub enum ByteSourceQuery {
    Ready(Vec<u8>),
    NeedsFile(String),
    NeedsVariable(String),
}

impl RawBytes {
    /// Resolve this source as far as the library can on its own: inline
    /// bytes are handed out, a file or variable source names what to fetch.
    pub fn get_bytes(&self) -> (r: ByteSourceQuery)
        ensures
            match self {
                RawBytes::Bytes(v) => r matches ByteSourceQuery::Ready(b) && b@ == v@,
                RawBytes::BinFileName(f) => r matches ByteSourceQuery::NeedsFile(g) && g@ == f@,
                RawBytes::EvalExprVarname(n) => r matches ByteSourceQuery::NeedsVariable(m) && m@
                    == n@,
            },
    {
        match self {
            RawBytes::Bytes(v) => ByteSourceQuery::Ready(copy_bytes(v)),
            RawBytes::BinFileName(f) => ByteSourceQuery::NeedsFile(copy_string(f)),
            RawBytes::EvalExprVarname(n) => ByteSourceQuery::NeedsVariable(copy_string(n)),
        }
    }
}

} // verus!
