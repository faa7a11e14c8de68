//! Message framing: a 4-byte big-endian length, then that many bytes of an
//! encoded message. The framing does not look inside the message.

use vstd::prelude::*;

verus! {

/// Bytes in a frame's length prefix.
pub const HEADER_LEN: usize = 4;

/// Why a byte sequence is not a complete frame.
#[derive(Debug, Clone, Copy, PartialEq, Eq, Structural)]
pub enum FrameError {
    /// Fewer than four bytes: the length prefix is incomplete.
    ShortHeader,
    /// The prefix announces more bytes than are present.
    ShortBody,
    /// The message is too long for a 32-bit length prefix.
    TooLong,
}

/// The value of four bytes read as a big-endian unsigned integer.
pub open spec fn be_value(b: Seq<u8>) -> nat
    recommends
        b.len() >= 4,
{
    (b[0] as nat) * 16777216 + (b[1] as nat) * 65536 + (b[2] as nat) * 256 + (b[3] as nat)
}

/// The four big-endian bytes of `n`.
pub open spec fn be_bytes(n: nat) -> Seq<u8> {
    seq![
        ((n / 16777216) % 256) as u8,
        ((n / 65536) % 256) as u8,
        ((n / 256) % 256) as u8,
        (n % 256) as u8,
    ]
}

/// The frame that carries `payload`.
pub open spec fn framed(payload: Seq<u8>) -> Seq<u8> {
    be_bytes(payload.len()) + payload
}

/// What reading one frame from the front of `buf` gives: the message and the
/// number of bytes the frame took, or why no full frame is there.
pub open spec fn unframed(buf: Seq<u8>) -> Result<(Seq<u8>, nat), FrameError> {
    if buf.len() < 4 {
        Err(FrameError::ShortHeader)
    } else if buf.len() < 4 + be_value(buf) {
        Err(FrameError::ShortBody)
    } else {
        Ok((buf.subrange(4, 4 + be_value(buf) as int), 4 + be_value(buf)))
    }
}

proof fn lemma_be_round_trip(n: nat)
    requires
        n <= u32::MAX,
    ensures
        be_bytes(n).len() == 4,
        be_value(be_bytes(n)) == n,
{
    let b = be_bytes(n);
    assert(b[0] as nat == (n / 16777216) % 256);
    assert(b[1] as nat == (n / 65536) % 256);
    assert(b[2] as nat == (n / 256) % 256);
    assert(b[3] as nat == n % 256);
    assert(((n / 16777216) % 256) * 16777216 + ((n / 65536) % 256) * 65536 + ((n / 256) % 256)
        * 256 + n % 256 == n) by (nonlinear_arith)
        requires
            n <= 4294967295,
    {
        assert(n / 16777216 < 256);
        assert((n / 16777216) % 256 == n / 16777216);
        assert(n == (n / 256) * 256 + n % 256);
        assert(n / 256 == ((n / 256) / 256) * 256 + (n / 256) % 256);
        assert((n / 256) / 256 == n / 65536);
        assert(n / 65536 == ((n / 65536) / 256) * 256 + (n / 65536) % 256);
        assert((n / 65536) / 256 == n / 16777216);
    }
}

/// Reading back a frame gives the message it was built from, and consumes
/// exactly the frame, whatever follows it.
pub proof fn lemma_frame_round_trip(payload: Seq<u8>, rest: Seq<u8>)
    requires
        payload.len() <= u32::MAX,
    ensures
        unframed(framed(payload) + rest) == Ok::<(Seq<u8>, nat), FrameError>(
            (payload, 4 + payload.len()),
        ),
{
    lemma_be_round_trip(payload.len());
    let buf = framed(payload) + rest;
    assert(buf.subrange(0, 4) == be_bytes(payload.len()));
    assert(be_value(buf) == be_value(be_bytes(payload.len())));
    assert(buf.subrange(4, 4 + payload.len() as int) == payload);
}

/// Builds the frame that carries `payload`.
pub fn encode_frame(payload: &[u8]) -> (r: Result<Vec<u8>, FrameError>)
    ensures
        payload@.len() <= u32::MAX ==> r == Ok::<Vec<u8>, FrameError>(r->Ok_0) && r->Ok_0@ == framed(
            payload@,
        ),
        payload@.len() > u32::MAX ==> r == Err::<Vec<u8>, FrameError>(FrameError::TooLong),
{
    if payload.len() > 4294967295 {
        return Err(FrameError::TooLong);
    }
    let n = payload.len() as u32;
    let mut out: Vec<u8> = Vec::new();
    out.push((n / 16777216 % 256) as u8);
    out.push((n / 65536 % 256) as u8);
    out.push((n / 256 % 256) as u8);
    out.push((n % 256) as u8);
    let mut i: usize = 0;
    while i < payload.len()
        invariant
            i <= payload@.len(),
            out@ == be_bytes(payload@.len()) + payload@.subrange(0, i as int),
        decreases payload@.len() - i,
    {
        out.push(payload[i]);
        assert(payload@.subrange(0, i + 1) == payload@.subrange(0, i as int).push(payload@[i as int]));
        i = i + 1;
    }
    assert(payload@.subrange(0, payload@.len() as int) == payload@);
    Ok(out)
}

/// The message length that a frame's prefix announces.
pub fn decode_length(header: &[u8]) -> (r: Result<u32, FrameError>)
    ensures
        header@.len() < 4 ==> r == Err::<u32, FrameError>(FrameError::ShortHeader),
        header@.len() >= 4 ==> r == Ok::<u32, FrameError>(r->Ok_0) && r->Ok_0 as nat == be_value(
            header@,
        ),
{
    if header.len() < HEADER_LEN {
        return Err(FrameError::ShortHeader);
    }
    let b0 = header[0] as u32;
    let b1 = header[1] as u32;
    let b2 = header[2] as u32;
    let b3 = header[3] as u32;
    assert(b0 * 16777216 + b1 * 65536 + b2 * 256 + b3 <= u32::MAX) by (nonlinear_arith)
        requires
            b0 <= 255,
            b1 <= 255,
            b2 <= 255,
            b3 <= 255,
    ;
    Ok(b0 * 16777216 + b1 * 65536 + b2 * 256 + b3)
}

/// Reads one frame from the front of `buf`: the message, and how many bytes
/// of `buf` the frame took.
pub fn decode_frame(buf: &[u8]) -> (r: Result<(Vec<u8>, usize), FrameError>)
    ensures
        match (r, unframed(buf@)) {
            (Ok((m, k)), Ok((sm, sk))) => m@ == sm && k as nat == sk,
            (Err(e), Err(se)) => e == se,
            _ => false,
        },
{
    let len = match decode_length(buf) {
        Ok(n) => n as usize,
        Err(e) => return Err(e),
    };
    if buf.len() - HEADER_LEN < len {
        return Err(FrameError::ShortBody);
    }
    let end = HEADER_LEN + len;
    let mut out: Vec<u8> = Vec::new();
    let mut i: usize = HEADER_LEN;
    while i < end
        invariant
            4 <= i <= end,
            end <= buf@.len(),
            out@ == buf@.subrange(4, i as int),
        decreases end - i,
    {
        out.push(buf[i]);
        assert(buf@.subrange(4, i + 1) == buf@.subrange(4, i as int).push(buf@[i as int]));
        i = i + 1;
    }
    Ok((out, end))
}

} // verus!
