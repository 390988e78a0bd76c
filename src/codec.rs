//! Length-prefixed packets of the presence protocol.
//!
//! A packet is the op as a little-endian `i32`, the body length as a
//! little-endian `i32`, then the body, which is UTF-8 JSON. The decoder is
//! incremental: it keeps a parsed header across calls and hands out a packet
//! only once the whole body is buffered.

use vstd::prelude::*;
use crate::json::{is_json, is_json_text};

verus! {

/// The packet kinds of the protocol.
#[derive(Debug, Clone, Copy, PartialEq, Eq, Structural)]
pub enum Op {
    Handshake,
    Frame,
    Close,
    Ping,
    Pong,
}

/// Why a packet could not be encoded or decoded.
#[derive(Debug, Clone, Copy, PartialEq, Eq, Structural)]
pub enum CodecError {
    /// The header named an op outside the protocol.
    UnknownOp(i32),
    /// The header gave a negative body length.
    InvalidLength(i32),
    /// The body is not one JSON text.
    InvalidJson,
    /// The body is longer than an `i32` can count.
    TooLarge,
}

impl Op {
    /// The op's number on the wire.
    pub open spec fn code(self) -> i32 {
        match self {
            Op::Handshake => 0,
            Op::Frame => 1,
            Op::Close => 2,
            Op::Ping => 3,
            Op::Pong => 4,
        }
    }

    /// The op with wire number `v`, if there is one.
    pub open spec fn from_code(v: i32) -> Option<Op> {
        if v == 0 {
            Some(Op::Handshake)
        } else if v == 1 {
            Some(Op::Frame)
        } else if v == 2 {
            Some(Op::Close)
        } else if v == 3 {
            Some(Op::Ping)
        } else if v == 4 {
            Some(Op::Pong)
        } else {
            None
        }
    }

    pub fn as_i32(&self) -> (r: i32)
        ensures
            r == self.code(),
    {
        match self {
            Op::Handshake => 0,
            Op::Frame => 1,
            Op::Close => 2,
            Op::Ping => 3,
            Op::Pong => 4,
        }
    }

    /// Reads a wire op number; numbers outside the protocol are an error.
    pub fn try_from(value: i32) -> (r: Result<Op, CodecError>)
        ensures
            match Op::from_code(value) {
                Some(op) => r == Ok::<Op, CodecError>(op),
                None => r == Err::<Op, CodecError>(CodecError::UnknownOp(value)),
            },
    {
        match value {
            0 => Ok(Op::Handshake),
            1 => Ok(Op::Frame),
            2 => Ok(Op::Close),
            3 => Ok(Op::Ping),
            4 => Ok(Op::Pong),
            other => Err(CodecError::UnknownOp(other)),
        }
    }
}

/// Every op reads back from its own wire number.
pub proof fn lemma_op_code(op: Op)
    ensures
        Op::from_code(op.code()) == Some(op),
{
}

/// The four little-endian bytes of `v`.
pub open spec fn i32_le(v: i32) -> Seq<u8> {
    let u = v as u32;
    seq![(u & 0xff) as u8, ((u >> 8u32) & 0xff) as u8, ((u >> 16u32) & 0xff) as u8, (u >> 24u32) as u8]
}

/// The `i32` whose little-endian bytes are `b[0..4]`.
pub open spec fn read_i32_le(b: Seq<u8>) -> i32 {
    ((b[0] as u32) | ((b[1] as u32) << 8u32) | ((b[2] as u32) << 16u32) | ((b[3] as u32) << 24u32)) as i32
}

proof fn lemma_bytes_u32(u: u32)
    by (bit_vector)
    ensures
        ((((u & 0xff) as u8) as u32) | ((((u >> 8u32) & 0xff) as u8) as u32) << 8u32 | ((((u >> 16u32)
            & 0xff) as u8) as u32) << 16u32 | (((u >> 24u32) as u8) as u32) << 24u32) == u,
{
}

proof fn lemma_cast_i32(v: i32)
    by (bit_vector)
    ensures
        ((v as u32) as i32) == v,
{
}

/// Reading the bytes that `i32_le` writes gives the value back.
pub proof fn lemma_i32_le(v: i32)
    ensures
        read_i32_le(i32_le(v)) == v,
        i32_le(v).len() == 4,
{
    let u = v as u32;
    lemma_bytes_u32(u);
    lemma_cast_i32(v);
}

/// The bytes of one packet on the wire.
pub open spec fn frame_bytes(op: Op, body: Seq<u8>) -> Seq<u8> {
    i32_le(op.code()) + i32_le(body.len() as i32) + body
}

/// One packet: its op and its JSON body.
#[derive(Debug, Clone)]
pub struct RpcPacket {
    pub op: Op,
    pub data: Vec<u8>,
}

impl View for RpcPacket {
    type V = (Op, Seq<u8>);

    open spec fn view(&self) -> (Op, Seq<u8>) {
        (self.op, self.data@)
    }
}

/// What one call of the decoder leaves behind: the header it keeps, the bytes
/// still buffered, and what it hands out.
pub struct DecodeStep {
    pub header: Option<(i32, int)>,
    pub rest: Seq<u8>,
    pub out: Result<Option<(Op, Seq<u8>)>, CodecError>,
}

/// One decoder call once the header is known: wait for `len` body bytes,
/// then hand out the packet or the error that the op or the body gives.
pub open spec fn decode_body(op: i32, len: int, buf: Seq<u8>) -> DecodeStep {
    if buf.len() < len {
        DecodeStep { header: Some((op, len)), rest: buf, out: Ok(None) }
    } else {
        let body = buf.subrange(0, len);
        let rest = buf.subrange(len, buf.len() as int);
        DecodeStep {
            header: None,
            rest,
            out: match Op::from_code(op) {
                None => Err(CodecError::UnknownOp(op)),
                Some(o) => if is_json_text(body) {
                    Ok(Some((o, body)))
                } else {
                    Err(CodecError::InvalidJson)
                },
            },
        }
    }
}

/// One decoder call from the kept header `header` on the buffered bytes `buf`.
pub open spec fn decode_step(header: Option<(i32, int)>, buf: Seq<u8>) -> DecodeStep {
    match header {
        Some((op, len)) => decode_body(op, len, buf),
        None => if buf.len() < 8 {
            DecodeStep { header: None, rest: buf, out: Ok(None) }
        } else {
            let op = read_i32_le(buf.subrange(0, 4));
            let len = read_i32_le(buf.subrange(4, 8));
            if len < 0 {
                DecodeStep {
                    header: None,
                    rest: buf.subrange(8, buf.len() as int),
                    out: Err(CodecError::InvalidLength(len)),
                }
            } else {
                decode_body(op, len as int, buf.subrange(8, buf.len() as int))
            }
        },
    }
}

/// Decoding the bytes of an encoded packet, with anything after them, hands
/// the packet back and leaves exactly what followed it buffered.
pub proof fn lemma_round_trip(op: Op, body: Seq<u8>, rest: Seq<u8>)
    requires
        body.len() <= i32::MAX,
        is_json_text(body),
    ensures
        decode_step(None, frame_bytes(op, body) + rest) == (DecodeStep {
            header: None,
            rest,
            out: Ok(Some((op, body))),
        }),
{
    let f = frame_bytes(op, body) + rest;
    lemma_i32_le(op.code());
    lemma_i32_le(body.len() as i32);
    assert(f.subrange(0, 4) =~= i32_le(op.code()));
    assert(f.subrange(4, 8) =~= i32_le(body.len() as i32));
    assert(f.subrange(8, f.len() as int) =~= body + rest);
    assert((body + rest).subrange(0, body.len() as int) =~= body);
    assert((body + rest).subrange(body.len() as int, (body + rest).len() as int) =~= rest);
    lemma_op_code(op);
}

/// Results of feeding `chunks` one after another to a decoder that starts
/// from `header` with `buf` buffered: each chunk is appended, then the
/// decoder is called once.
pub open spec fn feed(header: Option<(i32, int)>, buf: Seq<u8>, chunks: Seq<Seq<u8>>) -> Seq<
    Result<Option<(Op, Seq<u8>)>, CodecError>,
>
    decreases chunks.len(),
{
    if chunks.len() == 0 {
        Seq::empty()
    } else {
        let s = decode_step(header, buf + chunks[0]);
        seq![s.out] + feed(s.header, s.rest, chunks.drop_first())
    }
}

/// The decoder's state after the first `n` bytes of the packet `(op, body)`.
spec fn partial_state(op: Op, body: Seq<u8>, n: int) -> (Option<(i32, int)>, Seq<u8>) {
    let f = frame_bytes(op, body);
    if n < 8 {
        (None, f.subrange(0, n))
    } else {
        (Some((op.code(), body.len() as int)), f.subrange(8, n))
    }
}

spec fn waiting(k: int) -> Seq<Result<Option<(Op, Seq<u8>)>, CodecError>> {
    Seq::new(k as nat, |i: int| Ok(None))
}

proof fn lemma_feed_from(op: Op, body: Seq<u8>, n: int, chunks: Seq<Seq<u8>>)
    requires
        body.len() <= i32::MAX,
        is_json_text(body),
        0 <= n < frame_bytes(op, body).len(),
        chunks.len() >= 1,
        forall|i: int| 0 <= i < chunks.len() ==> (#[trigger] chunks[i]).len() > 0,
        chunks.flatten() == frame_bytes(op, body).subrange(n, frame_bytes(op, body).len() as int),
    ensures
        feed(partial_state(op, body, n).0, partial_state(op, body, n).1, chunks) == waiting(
            chunks.len() - 1,
        ) + seq![Ok::<Option<(Op, Seq<u8>)>, CodecError>(Some((op, body)))],
    decreases chunks.len(),
{
    let f = frame_bytes(op, body);
    let total = f.len() as int;
    let c = chunks[0];
    let tail = chunks.drop_first();
    assert(chunks.flatten() == c + tail.flatten());
    let m = n + c.len();
    assert(m <= total) by {
        assert((c + tail.flatten()).len() == total - n);
    }
    let st = partial_state(op, body, n);
    assert(st.1 + c =~= if n < 8 { f.subrange(0, m) } else { f.subrange(8, m) }) by {
        assert(c =~= f.subrange(n, m)) by {
            assert(c =~= (c + tail.flatten()).subrange(0, c.len() as int));
        }
    }
    lemma_i32_le(op.code());
    lemma_i32_le(body.len() as i32);
    lemma_op_code(op);
    let s = decode_step(st.0, st.1 + c);
    if m >= 8 {
        assert(f.subrange(0, m).subrange(0, 4) =~= i32_le(op.code()));
        assert(f.subrange(0, m).subrange(4, 8) =~= i32_le(body.len() as i32));
        assert(f.subrange(0, m).subrange(8, m) =~= f.subrange(8, m));
    }
    if m == total {
        assert(f.subrange(8, m) =~= body);
        assert(body.subrange(0, body.len() as int) =~= body);
        assert(s.out == Ok::<Option<(Op, Seq<u8>)>, CodecError>(Some((op, body))));
        if tail.len() > 0 {
            assert(tail.flatten() =~= tail[0] + tail.drop_first().flatten());
            assert(tail[0] == chunks[1]);
            assert(tail.flatten().len() == 0) by {
                assert((c + tail.flatten()).len() == total - n);
            }
            assert(false);
        }
        assert(feed(s.header, s.rest, tail) =~= Seq::empty());
        assert(feed(st.0, st.1, chunks) =~= waiting(chunks.len() - 1) + seq![
            Ok::<Option<(Op, Seq<u8>)>, CodecError>(Some((op, body))),
        ]);
    } else {
        assert(s.out == Ok::<Option<(Op, Seq<u8>)>, CodecError>(None));
        assert(s.header == partial_state(op, body, m).0);
        assert(s.rest == partial_state(op, body, m).1);
        assert(tail.len() >= 1) by {
            if tail.len() == 0 {
                assert(tail.flatten() =~= Seq::<u8>::empty());
                assert((c + tail.flatten()).len() == total - n);
            }
        }
        assert forall|i: int| 0 <= i < tail.len() implies (#[trigger] tail[i]).len() > 0 by {
            assert(tail[i] == chunks[i + 1]);
        }
        assert(tail.flatten() =~= f.subrange(m, total)) by {
            assert(tail.flatten() =~= (c + tail.flatten()).subrange(c.len() as int, total - n));
        }
        lemma_feed_from(op, body, m, tail);
        assert(feed(st.0, st.1, chunks) =~= waiting(chunks.len() - 1) + seq![
            Ok::<Option<(Op, Seq<u8>)>, CodecError>(Some((op, body))),
        ]);
    }
}

/// However the bytes of one packet are split into non-empty reads, a fresh
/// decoder fed them one read at a time answers `None` to every read but the
/// last, and the packet itself to the last.
pub proof fn lemma_split_decode(op: Op, body: Seq<u8>, chunks: Seq<Seq<u8>>)
    requires
        body.len() <= i32::MAX,
        is_json_text(body),
        forall|i: int| 0 <= i < chunks.len() ==> (#[trigger] chunks[i]).len() > 0,
        chunks.flatten() == frame_bytes(op, body),
    ensures
        chunks.len() >= 1,
        feed(None, Seq::empty(), chunks) == Seq::new(
            (chunks.len() - 1) as nat,
            |i: int| Ok::<Option<(Op, Seq<u8>)>, CodecError>(None),
        ) + seq![Ok::<Option<(Op, Seq<u8>)>, CodecError>(Some((op, body)))],
{
    let f = frame_bytes(op, body);
    lemma_i32_le(op.code());
    lemma_i32_le(body.len() as i32);
    if chunks.len() == 0 {
        assert(chunks.flatten() =~= Seq::<u8>::empty());
        assert(f.len() >= 8);
    }
    assert(f.subrange(0, f.len() as int) =~= f);
    assert(partial_state(op, body, 0).1 =~= Seq::<u8>::empty());
    lemma_feed_from(op, body, 0, chunks);
}

/// The incremental packet decoder and encoder.
#[derive(Debug)]
pub struct RpcCodec {
    op: Option<i32>,
    len: Option<usize>,
}

impl RpcCodec {
    /// The header that the decoder holds between calls.
    pub closed spec fn header(&self) -> Option<(i32, int)> {
        match (self.op, self.len) {
            (Some(op), Some(len)) => Some((op, len as int)),
            _ => None,
        }
    }

    pub closed spec fn wf(&self) -> bool {
        self.op.is_some() == self.len.is_some() && (self.len matches Some(l) ==> l <= i32::MAX)
    }

    pub fn new() -> (r: RpcCodec)
        ensures
            r.wf(),
            r.header() == None::<(i32, int)>,
    {
        RpcCodec { op: None, len: None }
    }

    /// Takes at most one packet off the front of `src`.
    pub fn decode(&mut self, src: &mut Vec<u8>) -> (r: Result<Option<RpcPacket>, CodecError>)
        requires
            old(self).wf(),
        ensures
            final(self).wf(),
            ({
                let s = decode_step(old(self).header(), old(src)@);
                &&& final(self).header() == s.header
                &&& final(src)@ == s.rest
                &&& match r {
                    Ok(Some(p)) => s.out == Ok::<Option<(Op, Seq<u8>)>, CodecError>(Some(p@)),
                    Ok(None) => s.out == Ok::<Option<(Op, Seq<u8>)>, CodecError>(None),
                    Err(e) => s.out == Err::<Option<(Op, Seq<u8>)>, CodecError>(e),
                }
            }),
    {
        if self.op.is_none() {
            if src.len() < 8 {
                return Ok(None);
            }
            let op = get_i32_le(src, 0);
            let len = get_i32_le(src, 4);
            let mut rest = src.split_off(8);
            core::mem::swap(src, &mut rest);
            if len < 0 {
                return Err(CodecError::InvalidLength(len));
            }
            self.op = Some(op);
            self.len = Some(len as usize);
        }
        let op = match self.op {
            Some(op) => op,
            None => 0,
        };
        let len = match self.len {
            Some(len) => len,
            None => 0,
        };
        if src.len() < len {
            return Ok(None);
        }
        let mut body = src.split_off(len);
        core::mem::swap(src, &mut body);
        self.op = None;
        self.len = None;
        let op = Op::try_from(op)?;
        if is_json(body.as_slice()) {
            Ok(Some(RpcPacket { op, data: body }))
        } else {
            Err(CodecError::InvalidJson)
        }
    }

    /// Appends `item` to `dst` as one packet.
    pub fn encode(&mut self, item: RpcPacket, dst: &mut Vec<u8>) -> (r: Result<(), CodecError>)
        ensures
            *final(self) == *old(self),
            item.data@.len() > i32::MAX ==> r == Err::<(), CodecError>(CodecError::TooLarge)
                && final(dst)@ == old(dst)@,
            item.data@.len() <= i32::MAX ==> r == Ok::<(), CodecError>(())
                && final(dst)@ == old(dst)@ + frame_bytes(item.op, item.data@),
    {
        if item.data.len() > i32::MAX as usize {
            return Err(CodecError::TooLarge);
        }
        let ghost start = dst@;
        put_i32_le(dst, item.op.as_i32());
        put_i32_le(dst, item.data.len() as i32);
        let mut data = item.data;
        dst.append(&mut data);
        assert(dst@ =~= start + frame_bytes(item.op, item.data@));
        Ok(())
    }
}

/// Appends the little-endian bytes of `v`.
fn put_i32_le(dst: &mut Vec<u8>, v: i32)
    ensures
        final(dst)@ == old(dst)@ + i32_le(v),
{
    let u = v as u32;
    dst.push((u & 0xff) as u8);
    dst.push(((u >> 8u32) & 0xff) as u8);
    dst.push(((u >> 16u32) & 0xff) as u8);
    dst.push((u >> 24u32) as u8);
    assert(dst@ =~= old(dst)@ + i32_le(v));
}

/// Reads the little-endian `i32` at `at`.
fn get_i32_le(src: &Vec<u8>, at: usize) -> (r: i32)
    requires
        at + 4 <= src@.len(),
    ensures
        r == read_i32_le(src@.subrange(at as int, at + 4)),
{
    let ghost b = src@.subrange(at as int, at + 4);
    assert(b[0] == src@[at as int] && b[1] == src@[at + 1] && b[2] == src@[at + 2] && b[3] == src@[at + 3]);
    let n = src.len();
    assert(at + 4 <= n);
    let b0 = src[at];
    let b1 = src[at + 1];
    let b2 = src[at + 2];
    let b3 = src[at + 3];
    let u: u32 = b0 as u32 + 256 * (b1 as u32) + 65536 * (b2 as u32) + 16777216 * (b3 as u32);
    proof {
        lemma_le_sum(b0, b1, b2, b3);
    }
    #[verifier::truncate]
    (u as i32)
}

proof fn lemma_le_sum(b0: u8, b1: u8, b2: u8, b3: u8)
    by (bit_vector)
    ensures
        (b0 as u32 + 256 * (b1 as u32) + 65536 * (b2 as u32) + 16777216 * (b3 as u32)) == ((b0 as u32)
            | ((b1 as u32) << 8u32) | ((b2 as u32) << 16u32) | ((b3 as u32) << 24u32)),
{
}

} // verus!
