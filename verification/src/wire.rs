//! Wire framing: every request and every response travels as one frame, a
//! 4-byte big-endian length prefix followed by exactly that many payload
//! bytes.  The shape is identical in both directions.

use vstd::prelude::*;
use vstd::assert_seqs_equal;
use crate::errors::KeyzError;

verus! {

/// The four big-endian bytes of a 32-bit length, most significant first.
pub open spec fn spec_u32_to_be_bytes(x: u32) -> Seq<u8> {
    seq![
        ((x >> 24) & 0xff) as u8,
        ((x >> 16) & 0xff) as u8,
        ((x >> 8) & 0xff) as u8,
        (x & 0xff) as u8,
    ]
}

/// The 32-bit value read from four big-endian bytes.
pub open spec fn spec_u32_from_be_bytes(s: Seq<u8>) -> u32
    recommends
        s.len() == 4,
{
    ((s[0] as u32) << 24) | ((s[1] as u32) << 16) | ((s[2] as u32) << 8) | (s[3] as u32)
}

/// Writing a 32-bit length and reading it back yields the same value, in
/// either order.
pub proof fn lemma_u32_be_bytes_round_trip(x: u32)
    ensures
        spec_u32_to_be_bytes(x).len() == 4,
        spec_u32_from_be_bytes(spec_u32_to_be_bytes(x)) == x,
{
    assert({
        &&& (x >> 24) & 0xff < 256
        &&& (x >> 16) & 0xff < 256
        &&& (x >> 8) & 0xff < 256
        &&& x & 0xff < 256
    }) by (bit_vector);
    assert(x == ((x >> 24) & 0xff) << 24 | ((x >> 16) & 0xff) << 16 | ((x >> 8) & 0xff) << 8 | (
    x & 0xff)) by (bit_vector);
}

/// Turns a length into its 4-byte big-endian wire form.
pub fn u32_to_be_bytes(x: u32) -> (r: Vec<u8>)
    ensures
        r@ == spec_u32_to_be_bytes(x),
        r@.len() == 4,
{
    proof {
        assert({
            &&& (x >> 24) & 0xff < 256
            &&& (x >> 16) & 0xff < 256
            &&& (x >> 8) & 0xff < 256
            &&& x & 0xff < 256
        }) by (bit_vector);
    }
    let mut r: Vec<u8> = Vec::new();
    r.push(((x >> 24) & 0xff) as u8);
    r.push(((x >> 16) & 0xff) as u8);
    r.push(((x >> 8) & 0xff) as u8);
    r.push((x & 0xff) as u8);
    proof {
        assert_seqs_equal!(r@ == spec_u32_to_be_bytes(x));
    }
    r
}

/// Reads the 32-bit length announced by a 4-byte big-endian prefix.
pub fn u32_from_be_bytes(s: &Vec<u8>) -> (x: u32)
    requires
        s@.len() == 4,
    ensures
        x == spec_u32_from_be_bytes(s@),
{
    let b0 = s[0] as u32;
    let b1 = s[1] as u32;
    let b2 = s[2] as u32;
    let b3 = s[3] as u32;
    proof {
        assert(b0 < 256 && b1 < 256 && b2 < 256 && b3 < 256);
    }
    (b0 << 24) | (b1 << 16) | (b2 << 8) | b3
}

/// The frame that carries `payload`: its length as a big-endian prefix,
/// then the payload bytes themselves.
pub open spec fn spec_encode_frame(payload: Seq<u8>) -> Seq<u8>
    recommends
        payload.len() <= u32::MAX,
{
    spec_u32_to_be_bytes(payload.len() as u32) + payload
}

/// One frame decoded from the front of `data`, which holds everything the
/// peer sent before the stream ended.  Fewer than 4 bytes is a truncated
/// header; fewer payload bytes than the header announces is a truncated
/// payload; bytes beyond the announced length are not part of this frame
/// and are left untouched.
pub open spec fn spec_decode_frame(data: Seq<u8>) -> Result<Seq<u8>, KeyzError> {
    if data.len() < 4 {
        Err(KeyzError::TruncatedHeader)
    } else {
        let n = spec_u32_from_be_bytes(data.subrange(0, 4)) as int;
        if data.len() < 4 + n {
            Err(KeyzError::TruncatedPayload)
        } else {
            Ok(data.subrange(4, 4 + n))
        }
    }
}

/// Builds the wire frame for `payload`.
pub fn encode_frame(payload: &Vec<u8>) -> (r: Vec<u8>)
    requires
        payload@.len() <= u32::MAX,
    ensures
        r@ == spec_encode_frame(payload@),
        r@.len() == payload@.len() + 4,
{
    let mut r = u32_to_be_bytes(payload.len() as u32);
    let mut i: usize = 0;
    while i < payload.len()
        invariant
            payload@.len() <= u32::MAX,
            i <= payload@.len(),
            r@ == spec_u32_to_be_bytes(payload@.len() as u32) + payload@.subrange(0, i as int),
        decreases payload@.len() - i,
    {
        r.push(payload[i]);
        i += 1;
        proof {
            assert_seqs_equal!(
                spec_u32_to_be_bytes(payload@.len() as u32) + payload@.subrange(0, i - 1)
                    + seq![payload@[i - 1]]
                == spec_u32_to_be_bytes(payload@.len() as u32) + payload@.subrange(0, i as int));
        }
    }
    proof {
        assert_seqs_equal!(payload@.subrange(0, payload@.len() as int) == payload@);
    }
    r
}

/// Decodes one frame from the front of `data`, exactly as
/// [`spec_decode_frame`] describes.
pub fn decode_frame(data: &Vec<u8>) -> (r: Result<Vec<u8>, KeyzError>)
    ensures
        match r {
            Ok(payload) => spec_decode_frame(data@) == Ok::<Seq<u8>, KeyzError>(payload@),
            Err(e) => spec_decode_frame(data@) == Err::<Seq<u8>, KeyzError>(e),
        },
{
    if data.len() < 4 {
        return Err(KeyzError::TruncatedHeader);
    }
    let mut header: Vec<u8> = Vec::new();
    header.push(data[0]);
    header.push(data[1]);
    header.push(data[2]);
    header.push(data[3]);
    proof {
        assert_seqs_equal!(header@ == data@.subrange(0, 4));
    }
    let n = u32_from_be_bytes(&header) as usize;
    if data.len() - 4 < n {
        return Err(KeyzError::TruncatedPayload);
    }
    let total: usize = data.len();
    let mut payload: Vec<u8> = Vec::new();
    let mut i: usize = 0;
    while i < n
        invariant
            total == data@.len(),
            4 + n <= total,
            i <= n,
            payload@ == data@.subrange(4, 4 + i as int),
        decreases n - i,
    {
        payload.push(data[4 + i]);
        i += 1;
        proof {
            assert_seqs_equal!(data@.subrange(4, 4 + i - 1) + seq![data@[4 + i - 1]]
                == data@.subrange(4, 4 + i as int));
        }
    }
    Ok(payload)
}

/// Round-trip framing: decoding a buffer that starts with the frame for
/// `payload` yields `payload` back exactly, whatever bytes follow the frame.
pub proof fn lemma_frame_round_trip_prefix(payload: Seq<u8>, rest: Seq<u8>)
    requires
        payload.len() <= u32::MAX,
    ensures
        spec_decode_frame(spec_encode_frame(payload) + rest) == Ok::<Seq<u8>, KeyzError>(payload),
{
    let data = spec_encode_frame(payload) + rest;
    lemma_u32_be_bytes_round_trip(payload.len() as u32);
    assert_seqs_equal!(data.subrange(0, 4) == spec_u32_to_be_bytes(payload.len() as u32));
    assert_seqs_equal!(data.subrange(4, 4 + payload.len() as int) == payload);
}

/// Round-trip framing: decoding exactly the frame built for `payload`
/// yields `payload` back.
pub proof fn lemma_frame_round_trip(payload: Seq<u8>)
    requires
        payload.len() <= u32::MAX,
    ensures
        spec_decode_frame(spec_encode_frame(payload)) == Ok::<Seq<u8>, KeyzError>(payload),
{
    lemma_frame_round_trip_prefix(payload, Seq::empty());
    assert_seqs_equal!(spec_encode_frame(payload) + Seq::<u8>::empty()
        == spec_encode_frame(payload));
}

} // verus!
