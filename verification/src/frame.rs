//! The wire format: one frame is an 8-byte little-endian length followed by
//! exactly that many payload bytes.  There is no magic number, no version
//! field and no checksum; the length prefix is the only message boundary.

use vstd::prelude::*;
use vstd::bytes::{
    lemma_auto_spec_u64_to_from_le_bytes, spec_u64_from_le_bytes, spec_u64_to_le_bytes,
    u64_to_le_bytes,
};
use vstd::slice::slice_to_vec;

verus! {

/// The bytes of one frame carrying the given payload.
pub open spec fn spec_frame(payload: Seq<u8>) -> Seq<u8> {
    spec_u64_to_le_bytes(payload.len() as u64) + payload
}

/// Length-prefix correctness: in any encoded frame the first 8 bytes, read as
/// a little-endian integer, equal the exact byte length of the remainder, and
/// the remainder is the payload itself.
pub proof fn lemma_frame_length_prefix(payload: Seq<u8>)
    requires
        payload.len() <= u64::MAX,
    ensures
        spec_frame(payload).len() == 8 + payload.len(),
        spec_u64_from_le_bytes(spec_frame(payload).subrange(0, 8)) == payload.len(),
        spec_frame(payload).subrange(8, spec_frame(payload).len() as int) == payload,
{
    lemma_auto_spec_u64_to_from_le_bytes();
    let f = spec_frame(payload);
    assert(f.subrange(0, 8) =~= spec_u64_to_le_bytes(payload.len() as u64));
    assert(f.subrange(8, f.len() as int) =~= payload);
}

/// Build one frame for the given payload bytes.
pub fn encode_frame(payload: &[u8]) -> (r: Vec<u8>)
    ensures
        r@ == spec_frame(payload@),
{
    let mut out = u64_to_le_bytes(payload.len() as u64);
    let mut body = slice_to_vec(payload);
    out.append(&mut body);
    proof {
        assert(out@ =~= spec_frame(payload@));
    }
    out
}

} // verus!
