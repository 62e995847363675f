//! Projection of expression values to request bytes.
//!
//! Scenario steps may take their payload from a variable of the embedded
//! expression language.  The evaluator itself lives outside the library;
//! what it hands back is mirrored here as a plain value: an integer, a
//! string as its UTF-8 bytes, a tuple, or anything else (a float, a
//! boolean, the empty value).  A tuple is flattened recursively — strings
//! spread into their bytes, integers truncate to eight bits, every other
//! leaf becomes a zero byte — exactly the forgiving coercion the scenario
//! language promises.

use crate::uds::append_bytes;
use vstd::prelude::*;

verus! {

/// An expression value, as far as byte projection reads one.
#[derive(Debug)]
pub enum ExprValue {
    Int(i64),
    Str(Vec<u8>),
    Tuple(Vec<ExprValue>),
    Other,
}

/// The mathematical value of an [`ExprValue`].
pub enum ExprValueV {
    Int(i64),
    Str(Seq<u8>),
    Tuple(Seq<ExprValueV>),
    Other,
}

pub open spec fn value_view(v: ExprValue) -> ExprValueV
    decreases v,
{
    match v {
        ExprValue::Int(i) => ExprValueV::Int(i),
        ExprValue::Str(bs) => ExprValueV::Str(bs@),
        ExprValue::Tuple(t) => ExprValueV::Tuple(values_view_seq(t@)),
        ExprValue::Other => ExprValueV::Other,
    }
}

pub open spec fn values_view_seq(s: Seq<ExprValue>) -> Seq<ExprValueV>
    decreases s,
{
    if s.len() == 0 {
        Seq::empty()
    } else {
        values_view_seq(s.drop_last()) + seq![value_view(s.last())]
    }
}

impl View for ExprValue {
    type V = ExprValueV;

    open spec fn view(&self) -> ExprValueV {
        value_view(*self)
    }
}

/// An integer leaf truncated to one byte.
pub open spec fn byte_of_int(i: i64) -> u8 {
    (i % 256) as u8
}

/// The bytes one value flattens to.
pub open spec fn bytes_of_value(v: ExprValueV) -> Seq<u8>
    decreases v,
{
    match v {
        ExprValueV::Int(i) => seq![byte_of_int(i)],
        ExprValueV::Str(bs) => bs,
        ExprValueV::Tuple(t) => bytes_of_values(t),
        ExprValueV::Other => seq![0u8],
    }
}

/// The bytes a tuple's members flatten to, in order.
pub open spec fn bytes_of_values(vs: Seq<ExprValueV>) -> Seq<u8>
    decreases vs,
{
    if vs.len() == 0 {
        Seq::empty()
    } else {
        bytes_of_values(vs.drop_last()) + bytes_of_value(vs.last())
    }
}

/// Flatten one value onto the end of `out`.
fn value_bytes_into(v: &ExprValue, out: &mut Vec<u8>)
    ensures
        final(out)@ == old(out)@ + bytes_of_value(v@),
    decreases *v,
{
    match v {
        ExprValue::Int(i) => {
            let b = (((*i % 256) + 256) % 256) as u8;
            assert(b == byte_of_int(*i));
            out.push(b);
            assert(out@ =~= old(out)@ + bytes_of_value(v@));
        },
        ExprValue::Str(bs) => {
            append_bytes(out, bs);
        },
        ExprValue::Tuple(t) => {
            values_bytes_into(t, out);
        },
        ExprValue::Other => {
            out.push(0);
            assert(out@ =~= old(out)@ + bytes_of_value(v@));
        },
    }
}

/// Flatten every member of a tuple onto the end of `out`.
fn values_bytes_into(t: &Vec<ExprValue>, out: &mut Vec<u8>)
    ensures
        final(out)@ == old(out)@ + bytes_of_values(values_view_seq(t@)),
    decreases *t,
{
    let mut i: usize = 0;
    while i < t.len()
        invariant
            i <= t@.len(),
            out@ == old(out)@ + bytes_of_values(values_view_seq(t@.take(i as int))),
        decreases t@.len() - i,
    {
        proof {
            assert(decreases_to!(*t => t@));
            assert(decreases_to!(t@ => t@[i as int]));
        }
        value_bytes_into(&t[i], out);
        proof {
            lemma_values_view_push(t@.take(i as int), t@[i as int]);
            assert(t@.take(i + 1 as int) =~= t@.take(i as int).push(t@[i as int]));
            let vs = values_view_seq(t@.take(i + 1 as int));
            assert(vs.drop_last() =~= values_view_seq(t@.take(i as int)));
            assert(out@ =~= old(out)@ + bytes_of_values(vs));
        }
        i += 1;
    }
    proof {
        assert(t@.take(i as int) =~= t@);
    }
}

pub proof fn lemma_values_view_push(s: Seq<ExprValue>, x: ExprValue)
    ensures
        values_view_seq(s.push(x)) == values_view_seq(s) + seq![value_view(x)],
{
    assert(s.push(x).drop_last() =~= s);
    assert(s.push(x).last() == x);
}

/// Flatten a tuple's members to bytes: nested tuples and strings spread
/// out, integers truncate to eight bits, other leaves become zero.
pub fn value_to_bytes(input: &Vec<ExprValue>) -> (r: Vec<u8>)
    ensures
        r@ == bytes_of_values(values_view_seq(input@)),
{
    let mut out: Vec<u8> = Vec::new();
    values_bytes_into(input, &mut out);
    proof {
        assert(out@ =~= bytes_of_values(values_view_seq(input@)));
    }
    out
}

/// What fetching a variable for a byte payload yields.
pub open spec fn spec_tuple_variable_bytes(v: Option<ExprValueV>) -> Option<Seq<u8>> {
    match v {
        Some(ExprValueV::Tuple(t)) => Some(bytes_of_values(t)),
        Some(ExprValueV::Str(bs)) => Some(bs),
        _ => None,
    }
}

/// Project a fetched variable to request bytes: a tuple flattens, a string
/// is its raw bytes, anything else (a missing variable included) yields
/// nothing.
pub fn get_tuple_variable(value: Option<&ExprValue>) -> (r: Option<Vec<u8>>)
    ensures
        match r {
            Some(b) => spec_tuple_variable_bytes(match value {
                Some(v) => Some(v@),
                None => None,
            }) == Some(b@),
            None => spec_tuple_variable_bytes(match value {
                Some(v) => Some(v@),
                None => None,
            }) is None,
        },
{
    match value {
        Some(ExprValue::Tuple(t)) => Some(value_to_bytes(t)),
        Some(ExprValue::Str(bs)) => {
            let mut out: Vec<u8> = Vec::new();
            append_bytes(&mut out, bs);
            proof {
                assert(out@ =~= bs@);
            }
            Some(out)
        },
        _ => None,
    }
}

/// The tuple of integers the `reply` variable is bound to after an
/// exchange: one integer per reply byte.
pub fn reply_tuple(bytes: &Vec<u8>) -> (r: ExprValue)
    ensures
        r@ == ExprValueV::Tuple(Seq::new(bytes@.len(), |i: int| ExprValueV::Int(bytes@[i] as i64))),
{
    let mut vals: Vec<ExprValue> = Vec::new();
    let mut i: usize = 0;
    while i < bytes.len()
        invariant
            i <= bytes@.len(),
            values_view_seq(vals@) == Seq::new(i as nat, |j: int| ExprValueV::Int(bytes@[j] as i64)),
        decreases bytes@.len() - i,
    {
        let ghost prev = vals@;
        vals.push(ExprValue::Int(bytes[i] as i64));
        proof {
            lemma_values_view_push(prev, ExprValue::Int(bytes@[i as int] as i64));
            assert(values_view_seq(vals@) =~= Seq::new(
                (i + 1) as nat,
                |j: int| ExprValueV::Int(bytes@[j] as i64),
            ));
        }
        i += 1;
    }
    proof {
        assert(values_view_seq(vals@) =~= Seq::new(
            bytes@.len(),
            |j: int| ExprValueV::Int(bytes@[j] as i64),
        ));
    }
    ExprValue::Tuple(vals)
}

/// The `reply` variable projects back to exactly the reply bytes it was
/// bound from.
pub proof fn lemma_reply_tuple_projects(bytes: Seq<u8>)
    ensures
        bytes_of_values(Seq::new(bytes.len(), |i: int| ExprValueV::Int(bytes[i] as i64))) == bytes,
    decreases bytes.len(),
{
    let tup = Seq::new(bytes.len(), |i: int| ExprValueV::Int(bytes[i] as i64));
    if bytes.len() == 0 {
        assert(tup =~= Seq::<ExprValueV>::empty());
        assert(bytes_of_values(tup) =~= bytes);
    } else {
        lemma_reply_tuple_projects(bytes.drop_last());
        let pre = Seq::new(
            bytes.drop_last().len(),
            |i: int| ExprValueV::Int(bytes.drop_last()[i] as i64),
        );
        assert(tup.drop_last() =~= pre);
        assert(tup.last() == ExprValueV::Int(bytes.last() as i64));
        assert(byte_of_int(bytes.last() as i64) == bytes.last());
        assert(bytes_of_values(tup) == bytes_of_values(tup.drop_last()) + bytes_of_value(
            tup.last(),
        ));
        assert(bytes_of_value(ExprValueV::Int(bytes.last() as i64)) == seq![bytes.last()]);
        assert(bytes_of_values(pre) == bytes.drop_last());
        assert(bytes_of_values(tup) =~= bytes);
    }
}

} // verus!
