//! The wire layout of one frame: the payload, then the capture timestamp as
//! eight big-endian bytes.

use crate::buffer::bytes_contents;
use bytes::{Bytes, BytesMut};
use core::ops::Deref;
use vstd::arithmetic::div_mod::{lemma_div_denominator, lemma_fundamental_div_mod_converse};
use vstd::prelude::*;
use vstd::slice::{slice_subrange, slice_to_vec};

verus! {

/// Length in bytes of the timestamp that ends every frame on the wire.
pub const TIMESTAMP_LEN: usize = 8;

/// One captured frame: its encoded picture and the wall-clock time of
/// capture, in milliseconds since the Unix epoch.
#[derive(Clone, Debug, PartialEq, Eq)]
pub struct FramePacket {
    pub payload: Vec<u8>,
    pub capture_timestamp: u64,
}

/// The eight bytes of `t`, most significant first.
pub open spec fn be_bytes(t: u64) -> Seq<u8> {
    seq![
        (t / 0x100_0000_0000_0000) as u8,
        (t / 0x1_0000_0000_0000 % 0x100) as u8,
        (t / 0x100_0000_0000 % 0x100) as u8,
        (t / 0x1_0000_0000 % 0x100) as u8,
        (t / 0x100_0000 % 0x100) as u8,
        (t / 0x1_0000 % 0x100) as u8,
        (t / 0x100 % 0x100) as u8,
        (t % 0x100) as u8,
    ]
}

/// The number that eight bytes spell, most significant first.
pub open spec fn be_value(s: Seq<u8>) -> u64
    recommends
        s.len() == 8,
{
    (s[0] * 0x100_0000_0000_0000 + s[1] * 0x1_0000_0000_0000 + s[2] * 0x100_0000_0000 + s[3]
        * 0x1_0000_0000 + s[4] * 0x100_0000 + s[5] * 0x1_0000 + s[6] * 0x100 + s[7]) as u64
}

/// The wire form of a payload captured at `t`.
pub open spec fn wire_layout(payload: Seq<u8>, t: u64) -> Seq<u8> {
    payload + be_bytes(t)
}

/// What a receiver reads from a message: nothing if it is too short to end
/// in a timestamp, else the bytes before the last eight and the number the
/// last eight spell.
pub open spec fn parse_wire(wire: Seq<u8>) -> Option<(Seq<u8>, u64)> {
    if wire.len() < 8 {
        None
    } else {
        Some(
            (
                wire.subrange(0, wire.len() - 8),
                be_value(wire.subrange(wire.len() - 8, wire.len() as int)),
            ),
        )
    }
}

/// Reading back the bytes of a number gives the number.
pub proof fn lemma_be_value_of_bytes(t: u64)
    ensures
        be_bytes(t).len() == 8,
        be_value(be_bytes(t)) == t,
{
    let x = t as int;
    let q1 = x / 0x100;
    let q2 = x / 0x1_0000;
    let q3 = x / 0x100_0000;
    let q4 = x / 0x1_0000_0000;
    let q5 = x / 0x100_0000_0000;
    let q6 = x / 0x1_0000_0000_0000;
    let q7 = x / 0x100_0000_0000_0000;
    lemma_div_denominator(x, 0x100, 0x100);
    lemma_div_denominator(x, 0x1_0000, 0x100);
    lemma_div_denominator(x, 0x100_0000, 0x100);
    lemma_div_denominator(x, 0x1_0000_0000, 0x100);
    lemma_div_denominator(x, 0x100_0000_0000, 0x100);
    lemma_div_denominator(x, 0x1_0000_0000_0000, 0x100);
    assert(q2 == q1 / 0x100);
    assert(q3 == q2 / 0x100);
    assert(q4 == q3 / 0x100);
    assert(q5 == q4 / 0x100);
    assert(q6 == q5 / 0x100);
    assert(q7 == q6 / 0x100);
    assert(x == 0x100 * q1 + x % 0x100);
    assert(q1 == 0x100 * q2 + q1 % 0x100);
    assert(q2 == 0x100 * q3 + q2 % 0x100);
    assert(q3 == 0x100 * q4 + q3 % 0x100);
    assert(q4 == 0x100 * q5 + q4 % 0x100);
    assert(q5 == 0x100 * q6 + q5 % 0x100);
    assert(q6 == 0x100 * q7 + q6 % 0x100);
    assert(0 <= q7 < 0x100);
    let s = be_bytes(t);
    assert(s[0] == q7);
    assert(s[1] == q6 % 0x100);
    assert(s[2] == q5 % 0x100);
    assert(s[3] == q4 % 0x100);
    assert(s[4] == q3 % 0x100);
    assert(s[5] == q2 % 0x100);
    assert(s[6] == q1 % 0x100);
    assert(s[7] == x % 0x100);
}

/// Spelling out the number that eight bytes spell gives the same bytes.
pub proof fn lemma_be_bytes_of_value(s: Seq<u8>)
    requires
        s.len() == 8,
    ensures
        be_bytes(be_value(s)) == s,
{
    let a = s[0] as int;
    let b = s[1] as int;
    let c = s[2] as int;
    let d = s[3] as int;
    let e = s[4] as int;
    let f = s[5] as int;
    let g = s[6] as int;
    let h = s[7] as int;
    let h7 = a;
    let h6 = h7 * 0x100 + b;
    let h5 = h6 * 0x100 + c;
    let h4 = h5 * 0x100 + d;
    let h3 = h4 * 0x100 + e;
    let h2 = h3 * 0x100 + f;
    let h1 = h2 * 0x100 + g;
    let v = h1 * 0x100 + h;
    assert(v == be_value(s));
    lemma_fundamental_div_mod_converse(v, 0x100, h1, h);
    lemma_fundamental_div_mod_converse(v, 0x1_0000, h2, g * 0x100 + h);
    lemma_fundamental_div_mod_converse(v, 0x100_0000, h3, (f * 0x100 + g) * 0x100 + h);
    lemma_fundamental_div_mod_converse(
        v,
        0x1_0000_0000,
        h4,
        ((e * 0x100 + f) * 0x100 + g) * 0x100 + h,
    );
    lemma_fundamental_div_mod_converse(
        v,
        0x100_0000_0000,
        h5,
        (((d * 0x100 + e) * 0x100 + f) * 0x100 + g) * 0x100 + h,
    );
    lemma_fundamental_div_mod_converse(
        v,
        0x1_0000_0000_0000,
        h6,
        ((((c * 0x100 + d) * 0x100 + e) * 0x100 + f) * 0x100 + g) * 0x100 + h,
    );
    lemma_fundamental_div_mod_converse(
        v,
        0x100_0000_0000_0000,
        h7,
        (((((b * 0x100 + c) * 0x100 + d) * 0x100 + e) * 0x100 + f) * 0x100 + g) * 0x100 + h,
    );
    lemma_fundamental_div_mod_converse(h1, 0x100, h2, g);
    lemma_fundamental_div_mod_converse(h2, 0x100, h3, f);
    lemma_fundamental_div_mod_converse(h3, 0x100, h4, e);
    lemma_fundamental_div_mod_converse(h4, 0x100, h5, d);
    lemma_fundamental_div_mod_converse(h5, 0x100, h6, c);
    lemma_fundamental_div_mod_converse(h6, 0x100, h7, b);
    assert(be_bytes(be_value(s)) =~= s);
}

/// Round trip: for every payload and every timestamp, parsing the wire form
/// gives back exactly that payload and that timestamp.
pub proof fn lemma_wire_round_trip(payload: Seq<u8>, t: u64)
    ensures
        parse_wire(wire_layout(payload, t)) == Some((payload, t)),
{
    let wire = wire_layout(payload, t);
    lemma_be_value_of_bytes(t);
    assert(wire.subrange(0, wire.len() - 8) =~= payload);
    assert(wire.subrange(wire.len() - 8, wire.len() as int) =~= be_bytes(t));
}

/// The eight bytes of `t`, most significant first.
pub fn timestamp_bytes(t: u64) -> (out: Vec<u8>)
    ensures
        out@ == be_bytes(t),
{
    let mut out: Vec<u8> = Vec::with_capacity(8);
    out.push((t / 0x100_0000_0000_0000) as u8);
    out.push((t / 0x1_0000_0000_0000 % 0x100) as u8);
    out.push((t / 0x100_0000_0000 % 0x100) as u8);
    out.push((t / 0x1_0000_0000 % 0x100) as u8);
    out.push((t / 0x100_0000 % 0x100) as u8);
    out.push((t / 0x1_0000 % 0x100) as u8);
    out.push((t / 0x100 % 0x100) as u8);
    out.push((t % 0x100) as u8);
    assert(out@ =~= be_bytes(t));
    out
}

/// The number that eight bytes spell, most significant first.
pub fn timestamp_value(s: &[u8]) -> (t: u64)
    requires
        s@.len() == 8,
    ensures
        t == be_value(s@),
{
    let b0: u64 = s[0] as u64;
    let b1: u64 = s[1] as u64;
    let b2: u64 = s[2] as u64;
    let b3: u64 = s[3] as u64;
    let b4: u64 = s[4] as u64;
    let b5: u64 = s[5] as u64;
    let b6: u64 = s[6] as u64;
    let b7: u64 = s[7] as u64;
    b0 * 0x100_0000_0000_0000 + b1 * 0x1_0000_0000_0000 + b2 * 0x100_0000_0000 + b3
        * 0x1_0000_0000 + b4 * 0x100_0000 + b5 * 0x1_0000 + b6 * 0x100 + b7
}

/// How long a frame captured at `captured` has been on its way at `now`.
/// Both are wall-clock times of two machines, so the difference can be
/// negative; it is reported as it is.
pub fn latency(now: u64, captured: u64) -> (elapsed: i128)
    ensures
        elapsed == now - captured,
{
    now as i128 - captured as i128
}

impl FramePacket {
    /// The bytes this frame takes on the wire.
    pub open spec fn wire(&self) -> Seq<u8> {
        wire_layout(self.payload@, self.capture_timestamp)
    }

    /// Serialises the frame: payload first, timestamp last.
    pub fn encode(&self) -> (out: Bytes)
        requires
            self.payload@.len() + 8 <= isize::MAX,
        ensures
            bytes_contents(out) == self.wire(),
    {
        let stamp = timestamp_bytes(self.capture_timestamp);
        let mut buf = BytesMut::with_capacity(self.payload.len() + stamp.len());
        buf.extend_from_slice(self.payload.as_slice());
        buf.extend_from_slice(stamp.as_slice());
        buf.freeze()
    }

    /// Splits a received message into payload and timestamp. A message
    /// shorter than a timestamp is no frame.
    pub fn decode(message: &Bytes) -> (frame: Option<FramePacket>)
        ensures
            match parse_wire(bytes_contents(*message)) {
                Some((payload, t)) => frame matches Some(f) && f.payload@ == payload
                    && f.capture_timestamp == t,
                None => frame is None,
            },
    {
        let all: &[u8] = message.deref();
        let n = all.len();
        if n < TIMESTAMP_LEN {
            return None;
        }
        let payload = slice_to_vec(slice_subrange(all, 0, n - TIMESTAMP_LEN));
        let capture_timestamp = timestamp_value(slice_subrange(all, n - TIMESTAMP_LEN, n));
        Some(FramePacket { payload, capture_timestamp })
    }
}

} // verus!
