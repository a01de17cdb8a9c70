//! Framing of the messages exchanged over a stream: each serialized
//! message is preceded by its length, as four big-endian bytes, so a
//! message must be shorter than 4,294,967,296 bytes.
use vstd::prelude::*;

verus! {

/// The four big-endian bytes of `n`.
pub open spec fn be_bytes(n: u32) -> Seq<u8> {
    seq![
        (n / 0x1000000) as u8,
        ((n / 0x10000) % 0x100) as u8,
        ((n / 0x100) % 0x100) as u8,
        (n % 0x100) as u8,
    ]
}

/// The number that four big-endian bytes stand for.
pub open spec fn be_value(b0: u8, b1: u8, b2: u8, b3: u8) -> int {
    b0 * 0x1000000 + b1 * 0x10000 + b2 * 0x100 + b3
}

/// The frame of `payload`: its length in big-endian bytes, then the
/// payload.
pub open spec fn spec_frame(payload: Seq<u8>) -> Seq<u8> {
    be_bytes(payload.len() as u32) + payload
}

/// Returns the frame of `payload`.
pub fn encode_frame(payload: &Vec<u8>) -> (r: Vec<u8>)
    requires
        payload@.len() <= u32::MAX,
    ensures
        r@ == spec_frame(payload@),
{
    let n: u32 = payload.len() as u32;
    let mut r: Vec<u8> = Vec::new();
    r.push((n / 0x1000000) as u8);
    r.push(((n / 0x10000) % 0x100) as u8);
    r.push(((n / 0x100) % 0x100) as u8);
    r.push((n % 0x100) as u8);
    let mut i: usize = 0;
    while i < payload.len()
        invariant
            i <= payload@.len(),
            r@ == be_bytes(n) + payload@.take(i as int),
        decreases payload@.len() - i,
    {
        r.push(payload[i]);
        i = i + 1;
        assert(r@ == be_bytes(n) + payload@.take(i as int));
    }
    assert(payload@.take(payload@.len() as int) == payload@);
    r
}

/// Returns the length announced by the four bytes of a frame's header.
pub fn frame_length(header: [u8; 4]) -> (n: u32)
    ensures
        n == be_value(header[0], header[1], header[2], header[3]),
{
    let b0 = header[0] as u32;
    let b1 = header[1] as u32;
    let b2 = header[2] as u32;
    let b3 = header[3] as u32;
    assert(b0 * 0x1000000 + b1 * 0x10000 + b2 * 0x100 + b3 <= u32::MAX) by (nonlinear_arith)
        requires
            b0 < 256,
            b1 < 256,
            b2 < 256,
            b3 < 256,
    ;
    b0 * 0x1000000 + b1 * 0x10000 + b2 * 0x100 + b3
}

/// Reading back the header of a frame gives the length of its payload,
/// and the payload follows the header unchanged.
pub proof fn lemma_frame_roundtrip(payload: Seq<u8>)
    requires
        payload.len() <= u32::MAX,
    ensures
        ({
            let f = spec_frame(payload);
            &&& f.len() == payload.len() + 4
            &&& be_value(f[0], f[1], f[2], f[3]) == payload.len()
            &&& f.skip(4) == payload
        }),
{
    let n = payload.len() as u32;
    let f = spec_frame(payload);
    assert(f.skip(4) =~= payload);
    let q0 = n / 0x1000000;
    let r0 = n % 0x1000000;
    let q1 = r0 / 0x10000;
    let r1 = r0 % 0x10000;
    assert((n / 0x10000) % 0x100 == q1 && (n / 0x100) % 0x100 == r1 / 0x100) by (nonlinear_arith)
        requires
            q0 == n / 0x1000000,
            r0 == n % 0x1000000,
            q1 == r0 / 0x10000,
            r1 == r0 % 0x10000,
    ;
    assert(be_value(f[0], f[1], f[2], f[3]) == n) by (nonlinear_arith)
        requires
            f[0] == q0,
            f[1] == q1,
            f[2] == r1 / 0x100,
            f[3] == n % 0x100,
            q0 == n / 0x1000000,
            r0 == n % 0x1000000,
            q1 == r0 / 0x10000,
            r1 == r0 % 0x10000,
    ;
}

} // verus!
