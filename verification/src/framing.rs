//! Length-prefixed message framing: every message on the stream is a 4-byte
//! big-endian payload length followed by the payload itself.

use vstd::prelude::*;
use vstd::string::*;

verus! {

/// Largest payload a reader accepts: 10 MiB.
pub const MAX_PAYLOAD_LEN: u32 = 10485760;

/// The four big-endian bytes of `n`.
pub open spec fn be_bytes(n: u32) -> Seq<u8> {
    seq![
        (n / 16777216) as u8,
        ((n / 65536) % 256) as u8,
        ((n / 256) % 256) as u8,
        (n % 256) as u8,
    ]
}

/// The number that four big-endian bytes denote.
pub open spec fn be_value(b: Seq<u8>) -> int {
    b[0] * 16777216 + b[1] * 65536 + b[2] * 256 + b[3]
}

/// The frame of a payload: its length, cut to 32 bits as the writer does,
/// in big-endian order, then the payload.
pub open spec fn frame_of(payload: Seq<u8>) -> Seq<u8> {
    be_bytes(payload.len() as u32) + payload
}

/// Why a byte buffer holds no complete, acceptable frame.
#[derive(Debug, Clone, Copy, PartialEq, Eq)]
pub enum FrameError {
    /// The buffer ends before the header or before the payload it announces.
    Truncated,
    /// The header announces more than `MAX_PAYLOAD_LEN` bytes.
    TooLarge { len: u32 },
}

/// What a reader makes of the start of `buf`: the payload and the number of
/// bytes the frame takes, or why there is none.
pub open spec fn spec_split_frame(buf: Seq<u8>) -> Result<(Seq<u8>, int), FrameError> {
    if buf.len() < 4 {
        Err(FrameError::Truncated)
    } else {
        let len = be_value(buf.subrange(0, 4));
        if len > MAX_PAYLOAD_LEN {
            Err(FrameError::TooLarge { len: len as u32 })
        } else if buf.len() < 4 + len {
            Err(FrameError::Truncated)
        } else {
            Ok((buf.subrange(4, 4 + len), 4 + len))
        }
    }
}

proof fn lemma_be_roundtrip(n: u32)
    ensures
        be_value(be_bytes(n)) == n,
{
    let b0 = n / 16777216;
    let b1 = (n / 65536) % 256;
    let b2 = (n / 256) % 256;
    let b3 = n % 256;
    assert(n == b0 * 16777216 + b1 * 65536 + b2 * 256 + b3) by (nonlinear_arith)
        requires
            b0 == n / 16777216,
            b1 == (n / 65536) % 256,
            b2 == (n / 256) % 256,
            b3 == n % 256,
    ;
    assert(b0 < 256) by (nonlinear_arith)
        requires
            b0 == n / 16777216,
            n < 0x1_0000_0000,
    ;
}

proof fn lemma_be_value_range(b: Seq<u8>)
    requires
        b.len() == 4,
    ensures
        0 <= be_value(b) < 0x1_0000_0000,
{
    let v = be_value(b);
    assert(0 <= v < 0x1_0000_0000) by (nonlinear_arith)
        requires
            v == b[0] * 16777216 + b[1] * 65536 + b[2] * 256 + b[3],
            0 <= b[0] < 256,
            0 <= b[1] < 256,
            0 <= b[2] < 256,
            0 <= b[3] < 256,
    ;
}

proof fn lemma_be_inverse(b: Seq<u8>)
    requires
        b.len() == 4,
    ensures
        0 <= be_value(b) < 0x1_0000_0000,
        be_bytes(be_value(b) as u32) =~= b,
{
    lemma_be_value_range(b);
    let v = be_value(b);
    let n = v as u32;
    assert(n / 16777216 == b[0] && (n / 65536) % 256 == b[1] && (n / 256) % 256 == b[2]
        && n % 256 == b[3]) by (nonlinear_arith)
        requires
            n == b[0] * 16777216 + b[1] * 65536 + b[2] * 256 + b[3],
            0 <= b[0] < 256,
            0 <= b[1] < 256,
            0 <= b[2] < 256,
            0 <= b[3] < 256,
    ;
}

/// Encodes `n` as four big-endian bytes (`u32::to_be_bytes`).
pub fn u32_to_be(n: u32) -> (r: [u8; 4])
    ensures
        r@ == be_bytes(n),
{
    let b0: u8 = (n / 16777216) as u8;
    let b1: u8 = ((n / 65536) % 256) as u8;
    let b2: u8 = ((n / 256) % 256) as u8;
    let b3: u8 = (n % 256) as u8;
    let r = [b0, b1, b2, b3];
    assert(r@ =~= be_bytes(n));
    r
}

/// Decodes four big-endian bytes (`u32::from_be_bytes`).
pub fn u32_from_be(b: [u8; 4]) -> (n: u32)
    ensures
        n == be_value(b@),
{
    proof {
        lemma_be_value_range(b@);
    }
    let n: u64 = b[0] as u64 * 16777216 + b[1] as u64 * 65536 + b[2] as u64 * 256 + b[3] as u64;
    n as u32
}

/// Builds the frame of `payload`: the header carries `payload.len()` cut to
/// 32 bits, as the writer of the stream does.
pub fn encode_frame(payload: &[u8]) -> (r: Vec<u8>)
    ensures
        r@ == frame_of(payload@),
{
    let len: u32 = payload.len() as u32;
    let header = u32_to_be(len);
    let mut r: Vec<u8> = Vec::new();
    r.push(header[0]);
    r.push(header[1]);
    r.push(header[2]);
    r.push(header[3]);
    let mut i: usize = 0;
    while i < payload.len()
        invariant
            0 <= i <= payload@.len(),
            r@ == be_bytes(len) + payload@.subrange(0, i as int),
            len == payload@.len() as u32,
        decreases payload@.len() - i,
    {
        r.push(payload[i]);
        i += 1;
        assert(payload@.subrange(0, i as int) =~= payload@.subrange(0, i - 1).push(
            payload@[i - 1],
        ));
    }
    assert(payload@.subrange(0, payload@.len() as int) =~= payload@);
    r
}

/// Reads the payload length from a frame header, refusing lengths above
/// `MAX_PAYLOAD_LEN`.
pub fn frame_len(header: [u8; 4]) -> (r: Result<usize, FrameError>)
    ensures
        be_value(header@) > MAX_PAYLOAD_LEN ==> r == Err::<usize, FrameError>(
            FrameError::TooLarge { len: be_value(header@) as u32 },
        ),
        be_value(header@) <= MAX_PAYLOAD_LEN ==> r == Ok::<usize, FrameError>(
            be_value(header@) as usize,
        ),
{
    let n = u32_from_be(header);
    if n > MAX_PAYLOAD_LEN {
        Err(FrameError::TooLarge { len: n })
    } else {
        Ok(n as usize)
    }
}

/// Splits the first frame off `buf`: its payload and the number of bytes the
/// whole frame takes.
pub fn split_frame(buf: &[u8]) -> (r: Result<(Vec<u8>, usize), FrameError>)
    ensures
        match spec_split_frame(buf@) {
            Ok((p, n)) => r matches Ok((v, m)) && v@ == p && m == n,
            Err(e) => r == Err::<(Vec<u8>, usize), FrameError>(e),
        },
{
    if buf.len() < 4 {
        return Err(FrameError::Truncated);
    }
    let header: [u8; 4] = [buf[0], buf[1], buf[2], buf[3]];
    assert(header@ =~= buf@.subrange(0, 4));
    let len = match frame_len(header) {
        Ok(n) => n,
        Err(e) => {
            return Err(e);
        },
    };
    if buf.len() - 4 < len {
        return Err(FrameError::Truncated);
    }
    let mut payload: Vec<u8> = Vec::new();
    let mut i: usize = 0;
    while i < len
        invariant
            0 <= i <= len,
            4 + len <= buf@.len(),
            buf@.len() <= usize::MAX,
            payload@ == buf@.subrange(4, 4 + i),
        decreases len - i,
    {
        payload.push(buf[4 + i]);
        i += 1;
        assert(buf@.subrange(4, 4 + i) =~= buf@.subrange(4, 4 + i - 1).push(buf@[4 + i - 1]));
    }
    Ok((payload, 4 + len))
}

/// Reading back a written frame gives the payload and the frame's length,
/// whatever bytes follow it, for every payload a reader accepts.
pub proof fn law_frame_roundtrip(payload: Seq<u8>, rest: Seq<u8>)
    requires
        payload.len() <= MAX_PAYLOAD_LEN,
    ensures
        spec_split_frame(frame_of(payload) + rest) == Ok::<(Seq<u8>, int), FrameError>(
            (payload, 4 + payload.len() as int),
        ),
{
    let buf = frame_of(payload) + rest;
    let n = payload.len() as u32;
    lemma_be_roundtrip(n);
    assert(buf.subrange(0, 4) =~= be_bytes(n));
    assert(buf.subrange(4, 4 + payload.len() as int) =~= payload);
}

/// A frame that a reader accepts is exactly the frame the writer builds for
/// the payload read from it.
pub proof fn law_frame_reencode(buf: Seq<u8>)
    requires
        spec_split_frame(buf) is Ok,
    ensures
        ({
            let (p, n) = spec_split_frame(buf)->Ok_0;
            frame_of(p) == buf.subrange(0, n)
        }),
{
    lemma_be_inverse(buf.subrange(0, 4));
    let (p, n) = spec_split_frame(buf)->Ok_0;
    assert(p.len() == be_value(buf.subrange(0, 4)));
    assert(frame_of(p) =~= buf.subrange(0, n));
}

impl FrameError {
    /// The message shown for the error: the reader's own for a frame that
    /// is too large, the one of a stream that ends early otherwise.
    pub fn message(&self) -> (r: String)
        ensures
            match *self {
                FrameError::Truncated => r@ == "failed to fill whole buffer"@,
                FrameError::TooLarge { len } => r@ == "Message too large: "@
                    + crate::numparse::decimal_digits(len as nat) + " bytes"@,
            },
    {
        match self {
            FrameError::Truncated => crate::text::owned("failed to fill whole buffer"),
            FrameError::TooLarge { len } => {
                let mut s = crate::text::owned("Message too large: ");
                crate::numparse::append_decimal(&mut s, *len as u64);
                s.append(" bytes");
                s
            },
        }
    }
}

} // verus!
