//! Frames of the native messaging protocol: a 32-bit length in the byte order
//! of the running machine, followed by that many bytes of JSON text.
use byteorder::{ByteOrder, NativeEndian};
use vstd::endian::{endianness, Endian};
use vstd::prelude::*;

verus! {

/// Browsers refuse any message from a native host that is larger than this.
pub const ONE_MEGABYTE_BYTES: usize = 1_048_576;

#[derive(Debug, PartialEq, Eq, Structural)]
pub enum NativeMessagingError {
    /// The encoded message would exceed the browser's limit; holds its length.
    MessageTooLarge(usize),
    /// The stream ended cleanly before the next frame began.
    NoMoreInput,
    /// A frame was cut short, or the transport failed.
    UnknownFailure,
}

/// The four bytes that hold `n` in the given byte order.
pub open spec fn u32_bytes(order: Endian, n: u32) -> Seq<u8> {
    match order {
        Endian::Little => seq![
            (n & 0xff) as u8,
            ((n >> 8) & 0xff) as u8,
            ((n >> 16) & 0xff) as u8,
            ((n >> 24) & 0xff) as u8,
        ],
        Endian::Big => seq![
            ((n >> 24) & 0xff) as u8,
            ((n >> 16) & 0xff) as u8,
            ((n >> 8) & 0xff) as u8,
            (n & 0xff) as u8,
        ],
    }
}

/// The number that the first four bytes of `b` hold in the given byte order.
pub open spec fn u32_value(order: Endian, b: Seq<u8>) -> u32 {
    match order {
        Endian::Little => (b[0] as u32) | (b[1] as u32) << 8 | (b[2] as u32) << 16 | (b[3] as u32)
            << 24,
        Endian::Big => (b[0] as u32) << 24 | (b[1] as u32) << 16 | (b[2] as u32) << 8 | (b[3] as u32),
    }
}

/// The length prefix of a frame whose body has `n` bytes.
pub open spec fn length_prefix(n: u32) -> Seq<u8> {
    u32_bytes(endianness(), n)
}

/// The frame that carries `body`.
pub open spec fn frame(body: Seq<u8>) -> Seq<u8> {
    length_prefix(body.len() as u32) + body
}

/// What reading a length prefix from the first bytes of a stream gives.
pub open spec fn read_length_spec(input: Seq<u8>) -> Result<u32, NativeMessagingError> {
    if input.len() == 0 {
        Err(NativeMessagingError::NoMoreInput)
    } else if input.len() < 4 {
        Err(NativeMessagingError::UnknownFailure)
    } else {
        Ok(u32_value(endianness(), input))
    }
}

/// What decoding the frame at the front of `input` gives: its body.
pub open spec fn decode_spec(input: Seq<u8>) -> Result<Seq<u8>, NativeMessagingError> {
    match read_length_spec(input) {
        Err(e) => Err(e),
        Ok(n) => if input.len() - 4 < n {
            Err(NativeMessagingError::UnknownFailure)
        } else {
            Ok(input.subrange(4, 4 + n))
        },
    }
}

/// Relies on byteorder's `ByteOrder::read_u32` for `NativeEndian`: the number
/// held by the first four bytes, in the byte order of the running machine.
#[verifier::external_body]
fn native_read_u32(b: &[u8]) -> (r: u32)
    requires
        b@.len() >= 4,
    ensures
        r == u32_value(endianness(), b@),
{
    NativeEndian::read_u32(b)
}

/// Relies on byteorder's `ByteOrder::write_u32` for `NativeEndian`: the four
/// bytes of `n` in the byte order of the running machine.
#[verifier::external_body]
fn native_u32_bytes(n: u32) -> (r: Vec<u8>)
    ensures
        r@ == u32_bytes(endianness(), n),
{
    let mut buf = vec![0u8; 4];
    NativeEndian::write_u32(&mut buf, n);
    buf
}

/// Reads a frame's length from the bytes that were available before the next
/// body: none at all means the peer closed the stream between frames.
pub fn read_length(prefix: &[u8]) -> (r: Result<u32, NativeMessagingError>)
    ensures
        r == read_length_spec(prefix@),
{
    if prefix.len() == 0 {
        Err(NativeMessagingError::NoMoreInput)
    } else if prefix.len() < 4 {
        Err(NativeMessagingError::UnknownFailure)
    } else {
        Ok(native_read_u32(prefix))
    }
}

/// Decodes the frame at the front of `input` and returns its body.
pub fn read_input(input: &[u8]) -> (r: Result<Vec<u8>, NativeMessagingError>)
    ensures
        match r {
            Ok(body) => decode_spec(input@) == Ok::<Seq<u8>, NativeMessagingError>(body@),
            Err(e) => decode_spec(input@) == Err::<Seq<u8>, NativeMessagingError>(e),
        },
        input@.len() == 0 <==> r == Err::<Vec<u8>, NativeMessagingError>(
            NativeMessagingError::NoMoreInput,
        ),
{
    let len = match read_length(input) {
        Ok(n) => n,
        Err(e) => return Err(e),
    };
    if input.len() - 4 < len as usize {
        return Err(NativeMessagingError::UnknownFailure);
    }
    let end: usize = 4 + len as usize;
    let mut body: Vec<u8> = Vec::with_capacity(len as usize);
    let mut i: usize = 4;
    while i < end
        invariant
            4 <= i <= end <= input@.len(),
            body@ == input@.subrange(4, i as int),
        decreases end - i,
    {
        body.push(input[i]);
        i += 1;
    }
    Ok(body)
}

/// Frames `body` for the browser, or refuses it, before anything is written,
/// when it exceeds the browser's limit.
pub fn write_output(body: &[u8]) -> (r: Result<Vec<u8>, NativeMessagingError>)
    ensures
        body@.len() > ONE_MEGABYTE_BYTES ==> r == Err::<Vec<u8>, NativeMessagingError>(
            NativeMessagingError::MessageTooLarge(body@.len() as usize),
        ),
        body@.len() <= ONE_MEGABYTE_BYTES ==> (r matches Ok(f) && f@ == frame(body@)),
{
    let len = body.len();
    if len > ONE_MEGABYTE_BYTES {
        return Err(NativeMessagingError::MessageTooLarge(len));
    }
    let mut out = native_u32_bytes(len as u32);
    let mut i: usize = 0;
    while i < len
        invariant
            len == body@.len() <= ONE_MEGABYTE_BYTES,
            i <= len,
            out@ == length_prefix(len as u32) + body@.subrange(0, i as int),
        decreases len - i,
    {
        out.push(body[i]);
        i += 1;
    }
    assert(body@.subrange(0, len as int) == body@);
    Ok(out)
}

/// Reading back the bytes of a number gives that number, in either byte order.
pub proof fn lemma_u32_round_trip(order: Endian, n: u32)
    ensures
        u32_value(order, u32_bytes(order, n)) == n,
{
    let b0 = (n & 0xff) as u8;
    let b1 = ((n >> 8) & 0xff) as u8;
    let b2 = ((n >> 16) & 0xff) as u8;
    let b3 = ((n >> 24) & 0xff) as u8;
    assert((b0 as u32) | (b1 as u32) << 8 | (b2 as u32) << 16 | (b3 as u32) << 24 == n)
        by (bit_vector)
        requires
            b0 == (n & 0xff) as u8,
            b1 == ((n >> 8) & 0xff) as u8,
            b2 == ((n >> 16) & 0xff) as u8,
            b3 == ((n >> 24) & 0xff) as u8,
    ;
    assert((b3 as u32) << 24 | (b2 as u32) << 16 | (b1 as u32) << 8 | (b0 as u32) == n)
        by (bit_vector)
        requires
            b0 == (n & 0xff) as u8,
            b1 == ((n >> 8) & 0xff) as u8,
            b2 == ((n >> 16) & 0xff) as u8,
            b3 == ((n >> 24) & 0xff) as u8,
    ;
}

/// A frame written for any body within the limit decodes back to that body,
/// whatever follows it on the stream.
pub proof fn lemma_frame_round_trip(body: Seq<u8>, rest: Seq<u8>)
    requires
        body.len() <= ONE_MEGABYTE_BYTES,
    ensures
        decode_spec(frame(body) + rest) == Ok::<Seq<u8>, NativeMessagingError>(body),
{
    let input = frame(body) + rest;
    let n = body.len() as u32;
    lemma_u32_round_trip(endianness(), n);
    assert(input.subrange(0, 4) == length_prefix(n));
    assert(u32_value(endianness(), input) == u32_value(endianness(), input.subrange(0, 4)));
    assert(input.subrange(4, 4 + n) == body);
}

} // verus!
