//! UDS messages as the scenario engine builds and reads them, together with
//! their wire form.
//!
//! A UDS message travels as a plain byte string inside a DoIP diagnostic
//! message.  The engine only ever constructs request variants and only ever
//! inspects three things of a reply: its service identifier (the first
//! byte), whether it is a negative response (`0x7f`), and the maximum block
//! size carried by a request-download response (`0x74`).  Every other reply
//! is kept as raw bytes.

use vstd::prelude::*;

verus! {

/// A UDS message, as far as the scenario engine reads or writes one.
#[derive(Debug)]
pub enum UdsMessage {
    RawUds { data: Vec<u8> },
    ReadDIDReq { did: u16 },
    WriteDIDReq { did: u16, user_data: Vec<u8> },
    ReadDTCReq { sub: u8 },
    RequestDownloadReq {
        compression_method: u8,
        encryption_method: u8,
        memory_address_bytes: u8,
        memory_size_bytes: u8,
        memory_address: u64,
        memory_size: u64,
    },
    RequestDownloadRsp { max_block_size: usize },
    TransferDataReq { block_sequence_counter: u8, data: Vec<u8> },
    TransferExitReq { user_data: Vec<u8> },
    Nrc { sid: u8, nrc: u8 },
}

/// The mathematical value of a [`UdsMessage`].
pub enum UdsMessageV {
    RawUds { data: Seq<u8> },
    ReadDIDReq { did: u16 },
    WriteDIDReq { did: u16, user_data: Seq<u8> },
    ReadDTCReq { sub: u8 },
    RequestDownloadReq {
        compression_method: u8,
        encryption_method: u8,
        memory_address_bytes: u8,
        memory_size_bytes: u8,
        memory_address: u64,
        memory_size: u64,
    },
    RequestDownloadRsp { max_block_size: usize },
    TransferDataReq { block_sequence_counter: u8, data: Seq<u8> },
    TransferExitReq { user_data: Seq<u8> },
    Nrc { sid: u8, nrc: u8 },
}

impl View for UdsMessage {
    type V = UdsMessageV;

    open spec fn view(&self) -> UdsMessageV {
        match self {
            UdsMessage::RawUds { data } => UdsMessageV::RawUds { data: data@ },
            UdsMessage::ReadDIDReq { did } => UdsMessageV::ReadDIDReq { did: *did },
            UdsMessage::WriteDIDReq { did, user_data } => UdsMessageV::WriteDIDReq {
                did: *did,
                user_data: user_data@,
            },
            UdsMessage::ReadDTCReq { sub } => UdsMessageV::ReadDTCReq { sub: *sub },
            UdsMessage::RequestDownloadReq {
                compression_method,
                encryption_method,
                memory_address_bytes,
                memory_size_bytes,
                memory_address,
                memory_size,
            } => UdsMessageV::RequestDownloadReq {
                compression_method: *compression_method,
                encryption_method: *encryption_method,
                memory_address_bytes: *memory_address_bytes,
                memory_size_bytes: *memory_size_bytes,
                memory_address: *memory_address,
                memory_size: *memory_size,
            },
            UdsMessage::RequestDownloadRsp { max_block_size } => UdsMessageV::RequestDownloadRsp {
                max_block_size: *max_block_size,
            },
            UdsMessage::TransferDataReq { block_sequence_counter, data } => {
                UdsMessageV::TransferDataReq {
                    block_sequence_counter: *block_sequence_counter,
                    data: data@,
                }
            },
            UdsMessage::TransferExitReq { user_data } => UdsMessageV::TransferExitReq {
                user_data: user_data@,
            },
            UdsMessage::Nrc { sid, nrc } => UdsMessageV::Nrc { sid: *sid, nrc: *nrc },
        }
    }
}

/// The UDS subfunction selecting "report supported DTC" in a read-DTC request.
pub const REPORT_SUPPORTED_DTC: u8 = 0x0a;

/// The negative-response code meaning "request correctly received, response
/// pending": the ECU asks the tester to keep waiting.
pub const NRC_RESPONSE_PENDING: u8 = 0x78;

/// `v` written big-endian over `n` bytes (higher bytes beyond `n` are dropped).
pub open spec fn be_bytes(v: u64, n: nat) -> Seq<u8>
    decreases n,
{
    if n == 0 {
        seq![]
    } else {
        be_bytes(v / 256, (n - 1) as nat) + seq![(v % 256) as u8]
    }
}

/// The value of a big-endian byte string.
pub open spec fn be_val(s: Seq<u8>) -> nat
    decreases s.len(),
{
    if s.len() == 0 {
        0
    } else {
        (be_val(s.drop_last()) * 256 + s.last()) as nat
    }
}

/// Two four-bit fields packed into one byte, high field first.
pub open spec fn packed_nibbles(hi: u8, lo: u8) -> u8 {
    (((hi & 0xf) as int) * 16 + ((lo & 0xf) as int)) as u8
}

/// The byte string a message travels as.
///
/// Requests are laid out as the scenarios observe them on the wire: a
/// service identifier byte followed by the request fields, addresses and
/// sizes big-endian.  A raw message is its bytes unchanged.  A
/// request-download response is rendered with a four-byte block size; the
/// engine never sends one, so only decoding matters for it.
pub open spec fn wire_of(m: UdsMessageV) -> Seq<u8> {
    match m {
        UdsMessageV::RawUds { data } => data,
        UdsMessageV::ReadDIDReq { did } => seq![0x22u8, (did >> 8) as u8, (did & 0xff) as u8],
        UdsMessageV::WriteDIDReq { did, user_data } => seq![
            0x2eu8,
            (did >> 8) as u8,
            (did & 0xff) as u8,
        ] + user_data,
        UdsMessageV::ReadDTCReq { sub } => seq![0x19u8, sub],
        UdsMessageV::RequestDownloadReq {
            compression_method,
            encryption_method,
            memory_address_bytes,
            memory_size_bytes,
            memory_address,
            memory_size,
        } => seq![
            0x34u8,
            packed_nibbles(compression_method, encryption_method),
            packed_nibbles(memory_size_bytes, memory_address_bytes),
        ] + be_bytes(memory_address, (memory_address_bytes & 0xf) as nat) + be_bytes(
            memory_size,
            (memory_size_bytes & 0xf) as nat,
        ),
        UdsMessageV::RequestDownloadRsp { max_block_size } => seq![0x74u8, 0x40u8] + be_bytes(
            max_block_size as u64,
            4,
        ),
        UdsMessageV::TransferDataReq { block_sequence_counter, data } => seq![
            0x36u8,
            block_sequence_counter,
        ] + data,
        UdsMessageV::TransferExitReq { user_data } => seq![0x37u8] + user_data,
        UdsMessageV::Nrc { sid, nrc } => seq![0x7fu8, sid, nrc],
    }
}

/// The service identifier of a message: its first wire byte, or zero for an
/// empty raw message.
pub open spec fn sid_of(m: UdsMessageV) -> u8 {
    match m {
        UdsMessageV::RawUds { data } => if data.len() > 0 {
            data[0]
        } else {
            0
        },
        UdsMessageV::ReadDIDReq { .. } => 0x22,
        UdsMessageV::WriteDIDReq { .. } => 0x2e,
        UdsMessageV::ReadDTCReq { .. } => 0x19,
        UdsMessageV::RequestDownloadReq { .. } => 0x34,
        UdsMessageV::RequestDownloadRsp { .. } => 0x74,
        UdsMessageV::TransferDataReq { .. } => 0x36,
        UdsMessageV::TransferExitReq { .. } => 0x37,
        UdsMessageV::Nrc { .. } => 0x7f,
    }
}

/// The reply a received byte string stands for, or `None` when the bytes
/// pretend to be a negative response or a request-download response but are
/// not well formed as one.
///
/// A negative response is exactly three bytes `7f sid nrc`.  A
/// request-download response is `74`, a length-format byte whose high
/// nibble `k` gives the size of the block-size field, and `k` further
/// bytes; a block size beyond the machine's word is refused.  Everything
/// else is kept raw.
pub open spec fn decode_spec(b: Seq<u8>) -> Option<UdsMessageV> {
    if b.len() > 0 && b[0] == 0x7f {
        if b.len() == 3 {
            Some(UdsMessageV::Nrc { sid: b[1], nrc: b[2] })
        } else {
            None
        }
    } else if b.len() > 0 && b[0] == 0x74 {
        if b.len() >= 2 && b.len() == 2 + ((b[1] >> 4) as int) && be_val(
            b.subrange(2, b.len() as int),
        ) <= usize::MAX {
            Some(
                UdsMessageV::RequestDownloadRsp {
                    max_block_size: be_val(b.subrange(2, b.len() as int)) as usize,
                },
            )
        } else {
            None
        }
    } else {
        Some(UdsMessageV::RawUds { data: b })
    }
}

/// Whether a decoded reply is the "response pending" negative response.
pub open spec fn is_response_pending(m: UdsMessageV) -> bool {
    m matches UdsMessageV::Nrc { nrc, .. } && nrc == NRC_RESPONSE_PENDING
}

/// `v` written big-endian over `n` bytes.
fn be_bytes_exec(v: u64, n: usize) -> (r: Vec<u8>)
    ensures
        r@ == be_bytes(v, n as nat),
    decreases n,
{
    if n == 0 {
        let r: Vec<u8> = Vec::new();
        assert(r@ =~= be_bytes(v, 0));
        r
    } else {
        let mut r = be_bytes_exec(v / 256, n - 1);
        r.push((v % 256) as u8);
        assert(r@ =~= be_bytes(v, n as nat));
        r
    }
}

/// Append every byte of `src` to `dst`.
pub(crate) fn append_bytes(dst: &mut Vec<u8>, src: &Vec<u8>)
    ensures
        final(dst)@ == old(dst)@ + src@,
{
    let mut i: usize = 0;
    while i < src.len()
        invariant
            i <= src.len(),
            dst@ == old(dst)@ + src@.take(i as int),
        decreases src.len() - i,
    {
        dst.push(src[i]);
        i += 1;
        assert(dst@ =~= old(dst)@ + src@.take(i as int));
    }
    assert(dst@ =~= old(dst)@ + src@);
}

impl UdsMessage {
    /// The byte string this message travels as.
    pub fn encode(&self) -> (r: Vec<u8>)
        ensures
            r@ == wire_of(self@),
    {
        match self {
            UdsMessage::RawUds { data } => {
                let mut r: Vec<u8> = Vec::new();
                append_bytes(&mut r, data);
                assert(r@ =~= wire_of(self@));
                r
            },
            UdsMessage::ReadDIDReq { did } => {
                let mut r: Vec<u8> = Vec::new();
                r.push(0x22);
                r.push((*did >> 8) as u8);
                r.push((*did & 0xff) as u8);
                assert(r@ =~= wire_of(self@));
                r
            },
            UdsMessage::WriteDIDReq { did, user_data } => {
                let mut r: Vec<u8> = Vec::new();
                r.push(0x2e);
                r.push((*did >> 8) as u8);
                r.push((*did & 0xff) as u8);
                append_bytes(&mut r, user_data);
                assert(r@ =~= wire_of(self@));
                r
            },
            UdsMessage::ReadDTCReq { sub } => {
                let mut r: Vec<u8> = Vec::new();
                r.push(0x19);
                r.push(*sub);
                assert(r@ =~= wire_of(self@));
                r
            },
            UdsMessage::RequestDownloadReq {
                compression_method,
                encryption_method,
                memory_address_bytes,
                memory_size_bytes,
                memory_address,
                memory_size,
            } => {
                let mut r: Vec<u8> = Vec::new();
                r.push(0x34);
                r.push(((*compression_method & 0xf) << 4) | (*encryption_method & 0xf));
                assert(((*compression_method & 0xf) << 4) | (*encryption_method & 0xf)
                    == packed_nibbles(*compression_method, *encryption_method)) by (bit_vector);
                r.push(((*memory_size_bytes & 0xf) << 4) | (*memory_address_bytes & 0xf));
                assert(((*memory_size_bytes & 0xf) << 4) | (*memory_address_bytes & 0xf)
                    == packed_nibbles(*memory_size_bytes, *memory_address_bytes)) by (bit_vector);
                let addr = be_bytes_exec(*memory_address, (*memory_address_bytes & 0xf) as usize);
                append_bytes(&mut r, &addr);
                let size = be_bytes_exec(*memory_size, (*memory_size_bytes & 0xf) as usize);
                append_bytes(&mut r, &size);
                assert(r@ =~= wire_of(self@));
                r
            },
            UdsMessage::RequestDownloadRsp { max_block_size } => {
                let mut r: Vec<u8> = Vec::new();
                r.push(0x74);
                r.push(0x40);
                let size = be_bytes_exec(*max_block_size as u64, 4);
                append_bytes(&mut r, &size);
                assert(r@ =~= wire_of(self@));
                r
            },
            UdsMessage::TransferDataReq { block_sequence_counter, data } => {
                let mut r: Vec<u8> = Vec::new();
                r.push(0x36);
                r.push(*block_sequence_counter);
                append_bytes(&mut r, data);
                assert(r@ =~= wire_of(self@));
                r
            },
            UdsMessage::TransferExitReq { user_data } => {
                let mut r: Vec<u8> = Vec::new();
                r.push(0x37);
                append_bytes(&mut r, user_data);
                assert(r@ =~= wire_of(self@));
                r
            },
            UdsMessage::Nrc { sid, nrc } => {
                let mut r: Vec<u8> = Vec::new();
                r.push(0x7f);
                r.push(*sid);
                r.push(*nrc);
                assert(r@ =~= wire_of(self@));
                r
            },
        }
    }

    /// A fresh copy with the same value.
    pub fn duplicate(&self) -> (r: UdsMessage)
        ensures
            r@ == self@,
    {
        match self {
            UdsMessage::RawUds { data } => {
                let mut v: Vec<u8> = Vec::new();
                append_bytes(&mut v, data);
                proof {
                    assert(v@ =~= data@);
                }
                UdsMessage::RawUds { data: v }
            },
            UdsMessage::ReadDIDReq { did } => UdsMessage::ReadDIDReq { did: *did },
            UdsMessage::WriteDIDReq { did, user_data } => {
                let mut v: Vec<u8> = Vec::new();
                append_bytes(&mut v, user_data);
                proof {
                    assert(v@ =~= user_data@);
                }
                UdsMessage::WriteDIDReq { did: *did, user_data: v }
            },
            UdsMessage::ReadDTCReq { sub } => UdsMessage::ReadDTCReq { sub: *sub },
            UdsMessage::RequestDownloadReq {
                compression_method,
                encryption_method,
                memory_address_bytes,
                memory_size_bytes,
                memory_address,
                memory_size,
            } => UdsMessage::RequestDownloadReq {
                compression_method: *compression_method,
                encryption_method: *encryption_method,
                memory_address_bytes: *memory_address_bytes,
                memory_size_bytes: *memory_size_bytes,
                memory_address: *memory_address,
                memory_size: *memory_size,
            },
            UdsMessage::RequestDownloadRsp { max_block_size } => UdsMessage::RequestDownloadRsp {
                max_block_size: *max_block_size,
            },
            UdsMessage::TransferDataReq { block_sequence_counter, data } => {
                let mut v: Vec<u8> = Vec::new();
                append_bytes(&mut v, data);
                proof {
                    assert(v@ =~= data@);
                }
                UdsMessage::TransferDataReq {
                    block_sequence_counter: *block_sequence_counter,
                    data: v,
                }
            },
            UdsMessage::TransferExitReq { user_data } => {
                let mut v: Vec<u8> = Vec::new();
                append_bytes(&mut v, user_data);
                proof {
                    assert(v@ =~= user_data@);
                }
                UdsMessage::TransferExitReq { user_data: v }
            },
            UdsMessage::Nrc { sid, nrc } => UdsMessage::Nrc { sid: *sid, nrc: *nrc },
        }
    }

    /// The service identifier of this message.
    pub fn sid(&self) -> (r: u8)
        ensures
            r == sid_of(self@),
    {
        match self {
            UdsMessage::RawUds { data } => if data.len() > 0 {
                data[0]
            } else {
                0
            },
            UdsMessage::ReadDIDReq { .. } => 0x22,
            UdsMessage::WriteDIDReq { .. } => 0x2e,
            UdsMessage::ReadDTCReq { .. } => 0x19,
            UdsMessage::RequestDownloadReq { .. } => 0x34,
            UdsMessage::RequestDownloadRsp { .. } => 0x74,
            UdsMessage::TransferDataReq { .. } => 0x36,
            UdsMessage::TransferExitReq { .. } => 0x37,
            UdsMessage::Nrc { .. } => 0x7f,
        }
    }
}

/// `be_val` can only grow when bytes are appended on the right.
proof fn lemma_be_val_prefix_grows(s: Seq<u8>, n: int)
    requires
        0 <= n <= s.len(),
    ensures
        be_val(s) >= be_val(s.subrange(0, n)),
    decreases s.len() - n,
{
    if n == s.len() {
        assert(s.subrange(0, n) =~= s);
    } else {
        lemma_be_val_prefix_grows(s, n + 1);
        let t = s.subrange(0, n + 1);
        assert(t.drop_last() =~= s.subrange(0, n));
        assert(be_val(t) == be_val(s.subrange(0, n)) * 256 + t.last());
        assert(be_val(s.subrange(0, n)) * 256 >= be_val(s.subrange(0, n))) by (nonlinear_arith);
    }
}

/// The big-endian value of `s`, or `None` when it does not fit the
/// machine's word.
fn be_val_exec(s: &Vec<u8>, from: usize) -> (r: Option<usize>)
    requires
        from <= s@.len(),
    ensures
        match r {
            Some(v) => v == be_val(s@.subrange(from as int, s@.len() as int)),
            None => be_val(s@.subrange(from as int, s@.len() as int)) > usize::MAX,
        },
{
    let ghost whole = s@.subrange(from as int, s@.len() as int);
    let mut acc: usize = 0;
    let mut i: usize = from;
    while i < s.len()
        invariant
            from <= i <= s@.len(),
            acc == be_val(s@.subrange(from as int, i as int)),
            whole == s@.subrange(from as int, s@.len() as int),
        decreases s@.len() - i,
    {
        let ghost prefix = s@.subrange(from as int, i as int);
        let ghost next = s@.subrange(from as int, i + 1 as int);
        proof {
            assert(next.drop_last() =~= prefix);
            assert(next.last() == s@[i as int]);
        }
        let scaled = match acc.checked_mul(256) {
            Some(x) => x,
            None => {
                proof {
                    assert(be_val(next) == be_val(prefix) * 256 + next.last());
                    lemma_be_val_prefix_grows(whole, i + 1 - from);
                    assert(whole.subrange(0, i + 1 - from) =~= next);
                }
                return None;
            },
        };
        let widened = match scaled.checked_add(s[i] as usize) {
            Some(x) => x,
            None => {
                proof {
                    assert(be_val(next) == be_val(prefix) * 256 + next.last());
                    lemma_be_val_prefix_grows(whole, i + 1 - from);
                    assert(whole.subrange(0, i + 1 - from) =~= next);
                }
                return None;
            },
        };
        proof {
            assert(be_val(next) == be_val(prefix) * 256 + next.last());
        }
        acc = widened;
        i += 1;
    }
    proof {
        assert(s@.subrange(from as int, i as int) =~= whole);
    }
    Some(acc)
}

/// Read a received byte string back as a message, or `None` when the bytes
/// are malformed; see [`decode_spec`] for the shapes read.
pub fn decode(b: &Vec<u8>) -> (r: Option<UdsMessage>)
    ensures
        match r {
            Some(m) => decode_spec(b@) == Some(m@),
            None => decode_spec(b@) is None,
        },
{
    if b.len() > 0 && b[0] == 0x7f {
        if b.len() == 3 {
            Some(UdsMessage::Nrc { sid: b[1], nrc: b[2] })
        } else {
            None
        }
    } else if b.len() > 0 && b[0] == 0x74 {
        if b.len() < 2 {
            return None;
        }
        let k = (b[1] >> 4) as usize;
        if b.len() != 2 + k {
            return None;
        }
        match be_val_exec(b, 2) {
            Some(v) => Some(UdsMessage::RequestDownloadRsp { max_block_size: v }),
            None => None,
        }
    } else {
        let mut data: Vec<u8> = Vec::new();
        append_bytes(&mut data, b);
        Some(UdsMessage::RawUds { data })
    }
}

/// Whether received bytes are the "response pending" negative response.
pub fn response_pending(b: &Vec<u8>) -> (r: bool)
    ensures
        r == (b@.len() == 3 && b@[0] == 0x7f && b@[2] == NRC_RESPONSE_PENDING),
{
    b.len() == 3 && b[0] == 0x7f && b[2] == NRC_RESPONSE_PENDING
}

} // verus!
