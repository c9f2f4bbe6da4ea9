//! Framing of greetd messages: a 32-bit length in the machine's byte order, then the body.

use vstd::prelude::*;

verus! {

/// A byte order for the length prefix.
#[derive(Debug, Clone, Copy, PartialEq, Eq, Structural)]
pub enum ByteOrder {
    Little,
    Big,
}

/// The four bytes of `v` in byte order `order`.
pub open spec fn u32_bytes(v: u32, order: ByteOrder) -> Seq<u8> {
    let b0 = (v & 0xff) as u8;
    let b1 = ((v >> 8) & 0xff) as u8;
    let b2 = ((v >> 16) & 0xff) as u8;
    let b3 = ((v >> 24) & 0xff) as u8;
    match order {
        ByteOrder::Little => seq![b0, b1, b2, b3],
        ByteOrder::Big => seq![b3, b2, b1, b0],
    }
}

/// The value of four bytes in byte order `order`.
pub open spec fn u32_of_bytes(b: Seq<u8>, order: ByteOrder) -> u32 {
    match order {
        ByteOrder::Little => (b[0] as u32) | ((b[1] as u32) << 8) | ((b[2] as u32) << 16) | ((b[3] as u32) << 24),
        ByteOrder::Big => (b[3] as u32) | ((b[2] as u32) << 8) | ((b[1] as u32) << 16) | ((b[0] as u32) << 24),
    }
}

/// Splits a value into bytes with std's `u32::to_ne_bytes`. Claims only that the bytes are
/// those of the value in one of the two byte orders; which one depends on the machine.
#[verifier::external_body]
fn native_bytes(v: u32) -> (res: [u8; 4])
    ensures
        res@ == u32_bytes(v, ByteOrder::Little) || res@ == u32_bytes(v, ByteOrder::Big),
{
    v.to_ne_bytes()
}

/// Reads a value back from four bytes with std's `u32::from_ne_bytes`. Claims only that
/// the value is that of the bytes in one of the two byte orders; which one depends on the
/// machine.
#[verifier::external_body]
fn native_value(b: [u8; 4]) -> (res: u32)
    ensures
        res == u32_of_bytes(b@, ByteOrder::Little) || res == u32_of_bytes(b@, ByteOrder::Big),
{
    u32::from_ne_bytes(b)
}

/// The byte order that the bytes of the value 1 show: little-endian when the first byte is
/// 1, else big-endian.
pub fn byte_order_of(one: [u8; 4]) -> (res: ByteOrder)
    ensures
        res == (if one@[0] == 1 { ByteOrder::Little } else { ByteOrder::Big }),
        one@ == u32_bytes(1, ByteOrder::Little) ==> res == ByteOrder::Little,
        one@ == u32_bytes(1, ByteOrder::Big) ==> res == ByteOrder::Big,
{
    proof {
        assert((1u32 & 0xff) as u8 == 1u8) by (bit_vector);
        assert(((1u32 >> 24u32) & 0xff) as u8 == 0u8) by (bit_vector);
        assert(u32_bytes(1, ByteOrder::Little)[0] == 1u8);
        assert(u32_bytes(1, ByteOrder::Big)[0] == 0u8);
    }
    if one[0] == 1 {
        ByteOrder::Little
    } else {
        ByteOrder::Big
    }
}

/// The byte order of this machine, as `u32::to_ne_bytes` shows it for the value 1. Which
/// order that is depends on the machine; the decision on the bytes is `byte_order_of`.
pub fn native_byte_order() -> (res: ByteOrder)
    ensures
        res == ByteOrder::Little || res == ByteOrder::Big,
{
    let one = native_bytes(1);
    byte_order_of(one)
}

/// Frames a message body in the machine's byte order: the header is the bytes that
/// `u32::to_ne_bytes` gives for the body's length (modulo 2^32), followed by the body.
pub fn frame_native(body: &[u8]) -> (res: Vec<u8>)
    ensures
        res@ == framed(body@, ByteOrder::Little) || res@ == framed(body@, ByteOrder::Big),
{
    #[verifier::truncate]
    let len = body.len() as u32;
    let header = native_bytes(len);
    let mut res: Vec<u8> = Vec::new();
    res.push(header[0]);
    res.push(header[1]);
    res.push(header[2]);
    res.push(header[3]);
    assert(res@ =~= header@);
    let mut i: usize = 0;
    while i < body.len()
        invariant
            i <= body@.len(),
            header@ == u32_bytes(body@.len() as u32, ByteOrder::Little)
                || header@ == u32_bytes(body@.len() as u32, ByteOrder::Big),
            res@ == header@ + body@.take(i as int),
        decreases body@.len() - i,
    {
        res.push(body[i]);
        assert(res@ =~= header@ + body@.take(i + 1));
        i = i + 1;
    }
    assert(body@.take(i as int) =~= body@);
    res
}

/// The body length that a four-byte header in the machine's byte order announces, read
/// with `u32::from_ne_bytes`.
pub fn native_frame_length(header: [u8; 4]) -> (res: usize)
    ensures
        res == u32_of_bytes(header@, ByteOrder::Little) || res == u32_of_bytes(header@, ByteOrder::Big),
{
    native_value(header) as usize
}

/// The four bytes of `v` in byte order `order`.
pub fn u32_to_bytes(v: u32, order: ByteOrder) -> (res: Vec<u8>)
    ensures
        res@ == u32_bytes(v, order),
{
    let b0 = (v & 0xff) as u8;
    let b1 = ((v >> 8) & 0xff) as u8;
    let b2 = ((v >> 16) & 0xff) as u8;
    let b3 = ((v >> 24) & 0xff) as u8;
    let mut res: Vec<u8> = Vec::new();
    match order {
        ByteOrder::Little => {
            res.push(b0);
            res.push(b1);
            res.push(b2);
            res.push(b3);
        },
        ByteOrder::Big => {
            res.push(b3);
            res.push(b2);
            res.push(b1);
            res.push(b0);
        },
    }
    assert(res@ =~= u32_bytes(v, order));
    res
}

/// The value of four bytes in byte order `order`.
pub fn u32_from_bytes(b: &[u8], order: ByteOrder) -> (res: u32)
    requires
        b@.len() == 4,
    ensures
        res == u32_of_bytes(b@, order),
{
    match order {
        ByteOrder::Little => (b[0] as u32) | ((b[1] as u32) << 8) | ((b[2] as u32) << 16) | ((b[3] as u32) << 24),
        ByteOrder::Big => (b[3] as u32) | ((b[2] as u32) << 8) | ((b[1] as u32) << 16) | ((b[0] as u32) << 24),
    }
}

/// Reading the bytes of a value back in the same byte order gives the value.
pub proof fn lemma_u32_bytes_roundtrip(v: u32, order: ByteOrder)
    ensures
        u32_bytes(v, order).len() == 4,
        u32_of_bytes(u32_bytes(v, order), order) == v,
{
    let b0 = (v & 0xff) as u8;
    let b1 = ((v >> 8) & 0xff) as u8;
    let b2 = ((v >> 16) & 0xff) as u8;
    let b3 = ((v >> 24) & 0xff) as u8;
    assert((b0 as u32) | ((b1 as u32) << 8) | ((b2 as u32) << 16) | ((b3 as u32) << 24) == v) by (bit_vector)
        requires
            b0 == (v & 0xff) as u8,
            b1 == ((v >> 8) & 0xff) as u8,
            b2 == ((v >> 16) & 0xff) as u8,
            b3 == ((v >> 24) & 0xff) as u8,
    ;
    let s = u32_bytes(v, order);
    match order {
        ByteOrder::Little => {
            assert(s[0] == b0 && s[1] == b1 && s[2] == b2 && s[3] == b3);
        },
        ByteOrder::Big => {
            assert(s[3] == b0 && s[2] == b1 && s[1] == b2 && s[0] == b3);
        },
    }
}

/// The frame of a message body: the body's length (modulo 2^32, as a `u32`) in byte order
/// `order`, then the body.
pub open spec fn framed(body: Seq<u8>, order: ByteOrder) -> Seq<u8> {
    u32_bytes(body.len() as u32, order) + body
}

/// Frames a message body for greetd.
pub fn frame_message(body: &[u8], order: ByteOrder) -> (res: Vec<u8>)
    ensures
        res@ == framed(body@, order),
{
    #[verifier::truncate]
    let len = body.len() as u32;
    let mut res = u32_to_bytes(len, order);
    let mut i: usize = 0;
    let ghost head = res@;
    while i < body.len()
        invariant
            i <= body@.len(),
            head == u32_bytes(body@.len() as u32, order),
            res@ == head + body@.take(i as int),
        decreases body@.len() - i,
    {
        res.push(body[i]);
        assert(body@.take(i + 1) =~= body@.take(i as int).push(body@[i as int]));
        assert(res@ =~= head + body@.take(i + 1));
        i = i + 1;
    }
    assert(body@.take(i as int) =~= body@);
    res
}

/// The body length that a four-byte header announces.
pub fn frame_length(header: &[u8], order: ByteOrder) -> (res: usize)
    requires
        header@.len() == 4,
    ensures
        res == u32_of_bytes(header@, order),
{
    u32_from_bytes(header, order) as usize
}

/// The header of a frame announces the length of its body, for bodies shorter than 2^32
/// bytes.
pub proof fn lemma_frame_announces_length(body: Seq<u8>, order: ByteOrder)
    requires
        body.len() <= u32::MAX,
    ensures
        framed(body, order).len() == body.len() + 4,
        u32_of_bytes(framed(body, order).take(4), order) == body.len(),
        framed(body, order).skip(4) == body,
{
    lemma_u32_bytes_roundtrip(body.len() as u32, order);
    let f = framed(body, order);
    assert(f.take(4) =~= u32_bytes(body.len() as u32, order));
    assert(f.skip(4) =~= body);
}

} // verus!
