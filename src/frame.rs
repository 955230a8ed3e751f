//! Framing on the daemon channel: each message body travels behind a
//! four-byte big-endian length header, so a reader knows where it ends.
use vstd::prelude::*;

verus! {

/// Bytes in the length header that precedes every frame body.
pub const HEADER_LEN: usize = 4;

/// The largest body that a four-byte header can announce.
pub const MAX_BODY_LEN: u64 = 0xffff_ffff;

/// The four big-endian bytes of `n`, for `n` below 2^32.
pub open spec fn be32_bytes(n: nat) -> Seq<u8> {
    seq![
        ((n / 0x100_0000) % 256) as u8,
        ((n / 0x1_0000) % 256) as u8,
        ((n / 0x100) % 256) as u8,
        (n % 256) as u8,
    ]
}

/// The number that the first four bytes of `b` announce.
pub open spec fn be32_value(b: Seq<u8>) -> nat
    recommends
        b.len() >= 4,
{
    (b[0] as nat) * 0x100_0000 + (b[1] as nat) * 0x1_0000 + (b[2] as nat) * 0x100 + (b[3] as nat)
}

/// The frame that carries `body`: its length header, then the body itself.
pub open spec fn frame_of(body: Seq<u8>) -> Seq<u8> {
    be32_bytes(body.len()) + body
}

/// `buf` starts with a whole frame: a header and all the bytes it announces.
pub open spec fn holds_frame(buf: Seq<u8>) -> bool {
    buf.len() >= 4 && buf.len() >= 4 + be32_value(buf)
}

/// The body of the frame at the start of `buf`.
pub open spec fn first_body(buf: Seq<u8>) -> Seq<u8> {
    buf.subrange(4, 4 + be32_value(buf) as int)
}

/// Reading the header of a length's own bytes gives that length back.
pub proof fn lemma_be32_round_trip(n: nat)
    requires
        n <= MAX_BODY_LEN,
    ensures
        be32_value(be32_bytes(n)) == n,
{
    let b = be32_bytes(n);
    let a0 = n / 0x100_0000;
    let r0 = n % 0x100_0000;
    let a1 = r0 / 0x1_0000;
    let r1 = r0 % 0x1_0000;
    let a2 = r1 / 0x100;
    let a3 = r1 % 0x100;
    assert(n == a0 * 0x100_0000 + r0) by (nonlinear_arith)
        requires a0 == n / 0x100_0000, r0 == n % 0x100_0000;
    assert(r0 == a1 * 0x1_0000 + r1) by (nonlinear_arith)
        requires a1 == r0 / 0x1_0000, r1 == r0 % 0x1_0000;
    assert(r1 == a2 * 0x100 + a3) by (nonlinear_arith)
        requires a2 == r1 / 0x100, a3 == r1 % 0x100;
    assert(a0 < 256) by (nonlinear_arith)
        requires n <= 0xffff_ffff, a0 == n / 0x100_0000;
    assert((n / 0x1_0000) % 256 == a1) by (nonlinear_arith)
        requires a1 == (n % 0x100_0000) / 0x1_0000;
    assert((n / 0x100) % 256 == a2) by (nonlinear_arith)
        requires a2 == ((n % 0x100_0000) % 0x1_0000) / 0x100;
    assert(n % 256 == a3) by (nonlinear_arith)
        requires a3 == ((n % 0x100_0000) % 0x1_0000) % 0x100;
    assert(b[0] as nat == a0);
    assert(b[1] as nat == a1);
    assert(b[2] as nat == a2);
    assert(b[3] as nat == a3);
}

/// Puts `body` in a frame, or `None` when it is too long for the header.
pub fn encode_frame(body: &Vec<u8>) -> (r: Option<Vec<u8>>)
    ensures
        r.is_some() <==> body@.len() <= MAX_BODY_LEN,
        r matches Some(f) ==> f@ == frame_of(body@),
{
    if body.len() as u64 > MAX_BODY_LEN {
        return None;
    }
    let n: u64 = body.len() as u64;
    let mut out: Vec<u8> = Vec::new();
    out.push(((n / 0x100_0000) % 256) as u8);
    out.push(((n / 0x1_0000) % 256) as u8);
    out.push(((n / 0x100) % 256) as u8);
    out.push((n % 256) as u8);
    let mut i: usize = 0;
    while i < body.len()
        invariant
            i <= body@.len(),
            out@ == be32_bytes(body@.len()) + body@.subrange(0, i as int),
        decreases body@.len() - i,
    {
        out.push(body[i]);
        i += 1;
        assert(body@.subrange(0, i as int) =~= body@.subrange(0, i - 1).push(body@[i - 1]));
    }
    assert(body@.subrange(0, body@.len() as int) =~= body@);
    Some(out)
}

/// The body of the frame at the start of `buf`, or `None` while `buf` does
/// not yet hold a whole frame.
pub fn decode_frame(buf: &Vec<u8>) -> (r: Option<Vec<u8>>)
    ensures
        r.is_some() <==> holds_frame(buf@),
        r matches Some(b) ==> b@ == first_body(buf@),
{
    if buf.len() < HEADER_LEN {
        return None;
    }
    let n: u64 = (buf[0] as u64) * 0x100_0000 + (buf[1] as u64) * 0x1_0000 + (buf[2] as u64) * 0x100
        + (buf[3] as u64);
    assert(n == be32_value(buf@));
    if (buf.len() as u64) - 4 < n {
        return None;
    }
    let end: usize = 4 + n as usize;
    let mut out: Vec<u8> = Vec::new();
    let mut i: usize = 4;
    while i < end
        invariant
            4 <= i <= end,
            end == 4 + be32_value(buf@),
            end <= buf@.len(),
            out@ == buf@.subrange(4, i as int),
        decreases end - i,
    {
        out.push(buf[i]);
        i += 1;
        assert(buf@.subrange(4, i as int) =~= buf@.subrange(4, i - 1).push(buf@[i - 1]));
    }
    Some(out)
}

/// Whatever body `encode_frame` framed, `decode_frame` reads back, also
/// when more bytes follow the frame.
pub proof fn law_frame_round_trip(body: Seq<u8>, rest: Seq<u8>)
    requires
        body.len() <= MAX_BODY_LEN,
    ensures
        holds_frame(frame_of(body) + rest),
        first_body(frame_of(body) + rest) == body,
{
    lemma_be32_round_trip(body.len());
    let buf = frame_of(body) + rest;
    assert(buf.subrange(0, 4) =~= be32_bytes(body.len()));
    assert(be32_value(buf) == be32_value(be32_bytes(body.len())));
    assert(first_body(buf) =~= body);
}

} // verus!
