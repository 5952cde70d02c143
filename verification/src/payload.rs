//! The pluggable payload codec: how one value becomes bytes and back.
//!
//! The framing layer is agnostic to the payload encoding; any type that
//! implements [`Payload`] can travel over a framed connection.  Each
//! implementation fixes a byte format for its abstract value, an exact
//! parser for it, and a proof that parsing inverts encoding.

use vstd::prelude::*;
use vstd::bytes::{
    lemma_auto_spec_u32_to_from_le_bytes, lemma_auto_spec_u64_to_from_le_bytes,
    spec_u32_from_le_bytes, spec_u32_to_le_bytes, spec_u64_from_le_bytes, spec_u64_to_le_bytes,
    u32_from_le_bytes, u32_to_le_bytes, u64_from_le_bytes, u64_to_le_bytes,
};
use vstd::slice::{slice_subrange, slice_to_vec};
use vstd::string::StringSliceAdditionalSpecFns;
use vstd::utf8::{decode_utf8, decode_utf8_encode_utf8, encode_utf8, encode_utf8_decode_utf8,
    encode_utf8_valid_utf8, valid_utf8};

verus! {

/// A value that can be carried as the payload of a frame.
///
/// `wire` fixes the byte encoding of an abstract value, `parses` the exact
/// partial inverse, and `round_trip` the law that ties them together: on any
/// well-formed value, decoding the encoding yields the value back.
pub trait Payload: View + Sized {
    /// Which abstract values this codec can carry (for most codecs: all of
    /// them; for some, those whose encoding fits the wire's length field).
    spec fn wf_value(v: Self::V) -> bool;

    /// The byte encoding of an abstract value.
    spec fn wire(v: Self::V) -> Seq<u8>;

    /// The exact parser: the abstract value a byte string encodes, if any.
    spec fn parses(bytes: Seq<u8>) -> Option<Self::V>;

    /// Encode this value.
    fn encode(&self) -> (r: Vec<u8>)
        ensures
            r@ == Self::wire(self@),
            Self::wf_value(self@),
    ;

    /// Decode a value from payload bytes; `None` on malformed input.
    fn decode(bytes: &[u8]) -> (r: Option<Self>)
        ensures
            match r {
                Some(v) => Self::parses(bytes@) == Some(v@) && Self::wf_value(v@),
                None => Self::parses(bytes@) is None,
            },
    ;

    /// Round-trip: decoding the encoding of any well-formed value yields
    /// that value.
    proof fn round_trip(v: Self::V)
        requires
            Self::wf_value(v),
        ensures
            Self::parses(Self::wire(v)) == Some(v),
    ;
}

impl Payload for u32 {
    open spec fn wf_value(v: u32) -> bool {
        true
    }

    open spec fn wire(v: u32) -> Seq<u8> {
        spec_u32_to_le_bytes(v)
    }

    open spec fn parses(bytes: Seq<u8>) -> Option<u32> {
        if bytes.len() == 4 {
            Some(spec_u32_from_le_bytes(bytes))
        } else {
            None
        }
    }

    fn encode(&self) -> (r: Vec<u8>) {
        u32_to_le_bytes(*self)
    }

    fn decode(bytes: &[u8]) -> (r: Option<u32>) {
        if bytes.len() == 4 {
            proof {
                lemma_auto_spec_u32_to_from_le_bytes();
            }
            Some(u32_from_le_bytes(bytes))
        } else {
            None
        }
    }

    proof fn round_trip(v: u32) {
        lemma_auto_spec_u32_to_from_le_bytes();
    }
}

impl Payload for String {
    open spec fn wf_value(v: Seq<char>) -> bool {
        encode_utf8(v).len() <= u64::MAX
    }

    open spec fn wire(v: Seq<char>) -> Seq<u8> {
        spec_u64_to_le_bytes(encode_utf8(v).len() as u64) + encode_utf8(v)
    }

    open spec fn parses(bytes: Seq<u8>) -> Option<Seq<char>> {
        if bytes.len() >= 8 && spec_u64_from_le_bytes(bytes.subrange(0, 8)) == bytes.len() - 8
            && valid_utf8(bytes.skip(8)) {
            Some(decode_utf8(bytes.skip(8)))
        } else {
            None
        }
    }

    fn encode(&self) -> (r: Vec<u8>) {
        let b: &[u8] = self.as_str().as_bytes();
        let mut out = u64_to_le_bytes(b.len() as u64);
        let mut body = slice_to_vec(b);
        out.append(&mut body);
        proof {
            assert(out@ =~= Self::wire(self@));
        }
        out
    }

    fn decode(bytes: &[u8]) -> (r: Option<String>) {
        if bytes.len() < 8 {
            return None;
        }
        let header = slice_subrange(bytes, 0, 8);
        let n = u64_from_le_bytes(header);
        if n != (bytes.len() - 8) as u64 {
            return None;
        }
        let body = slice_subrange(bytes, 8, bytes.len());
        proof {
            assert(body@ =~= bytes@.skip(8));
        }
        let parsed = parse_utf8(slice_to_vec(body));
        proof {
            if valid_utf8(bytes@.skip(8)) {
                decode_utf8_encode_utf8(bytes@.skip(8));
            }
        }
        parsed
    }

    proof fn round_trip(v: Seq<char>) {
        lemma_auto_spec_u64_to_from_le_bytes();
        encode_utf8_valid_utf8(v);
        encode_utf8_decode_utf8(v);
        let w = Self::wire(v);
        assert(w.subrange(0, 8) =~= spec_u64_to_le_bytes(encode_utf8(v).len() as u64));
        assert(w.skip(8) =~= encode_utf8(v));
    }
}

/// Relies on `String::from_utf8`: it succeeds exactly on valid UTF-8 input
/// and returns the string those bytes encode.
#[verifier::external_body]
fn parse_utf8(bytes: Vec<u8>) -> (r: Option<String>)
    ensures
        r is Some <==> valid_utf8(bytes@),
        r matches Some(s) ==> s@ == decode_utf8(bytes@),
{
    String::from_utf8(bytes).ok()
}

} // verus!
