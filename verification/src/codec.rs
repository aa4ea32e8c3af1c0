//! The persisted layout of a warehouse record: an 8-byte record header,
//! the capacity and utilization counters as little-endian 64-bit words,
//! and the 32-byte authority identifier, 56 bytes in all.

use vstd::prelude::*;

use vstd::bytes::lemma_auto_spec_u64_to_from_le_bytes;
use vstd::bytes::spec_u64_from_le_bytes;
use vstd::bytes::spec_u64_to_le_bytes;
use vstd::bytes::u64_from_le_bytes;
use vstd::bytes::u64_to_le_bytes;
use vstd::slice::slice_subrange;

use crate::state::HEADER_BYTES;
use crate::state::Pubkey;
use crate::state::WAREHOUSE_SPACE;
use crate::state::Warehouse;

verus! {

broadcast use vstd::array::group_array_axioms;

/// The bytes a record persists as: the header, then each field in full,
/// the two counters in little-endian order.
pub open spec fn spec_encode_warehouse(header: Seq<u8>, w: Warehouse) -> Seq<u8> {
    header + spec_u64_to_le_bytes(w.capacity) + spec_u64_to_le_bytes(w.utilized)
        + w.authority.bytes@
}

/// Serialize a record for persistence under the given record header.
pub fn encode_warehouse(header: &[u8; 8], w: &Warehouse) -> (out: Vec<u8>)
    ensures
        out@ == spec_encode_warehouse(header@, *w),
        out@.len() == WAREHOUSE_SPACE,
{
    let mut out: Vec<u8> = Vec::new();
    let mut i: usize = 0;
    while i < 8
        invariant
            i <= 8,
            out@ == header@.subrange(0, i as int),
        decreases 8 - i,
    {
        out.push(header[i]);
        proof {
            assert(header@.subrange(0, i + 1) =~= header@.subrange(0, i as int).push(
                header@[i as int],
            ));
        }
        i += 1;
    }
    proof {
        assert(header@.subrange(0, 8) =~= header@);
    }
    let mut cap = u64_to_le_bytes(w.capacity);
    out.append(&mut cap);
    let mut uti = u64_to_le_bytes(w.utilized);
    out.append(&mut uti);
    let ghost prefix = header@ + spec_u64_to_le_bytes(w.capacity) + spec_u64_to_le_bytes(
        w.utilized,
    );
    let mut j: usize = 0;
    while j < 32
        invariant
            j <= 32,
            out@ == prefix + w.authority.bytes@.subrange(0, j as int),
        decreases 32 - j,
    {
        out.push(w.authority.bytes[j]);
        proof {
            assert(prefix + w.authority.bytes@.subrange(0, j + 1) =~= (prefix
                + w.authority.bytes@.subrange(0, j as int)).push(w.authority.bytes@[j as int]));
        }
        j += 1;
    }
    proof {
        assert(w.authority.bytes@.subrange(0, 32) =~= w.authority.bytes@);
        lemma_auto_spec_u64_to_from_le_bytes();
    }
    out
}

/// Deserialize a persisted record. Yields the record exactly when the
/// input is one full record long and opens with the given header; yields
/// nothing otherwise.
pub fn decode_warehouse(header: &[u8; 8], bytes: &[u8]) -> (r: Option<Warehouse>)
    ensures
        r is Some <==> (bytes@.len() == WAREHOUSE_SPACE && bytes@.subrange(
            0,
            HEADER_BYTES as int,
        ) == header@),
        r matches Some(w) ==> {
            &&& w.capacity == spec_u64_from_le_bytes(bytes@.subrange(8, 16))
            &&& w.utilized == spec_u64_from_le_bytes(bytes@.subrange(16, 24))
            &&& w.authority.bytes@ == bytes@.subrange(24, 56)
        },
{
    if bytes.len() != WAREHOUSE_SPACE {
        return None;
    }
    let mut i: usize = 0;
    while i < 8
        invariant
            i <= 8,
            bytes@.len() == WAREHOUSE_SPACE,
            forall|k: int| 0 <= k < i ==> bytes@[k] == header@[k],
        decreases 8 - i,
    {
        if bytes[i] != header[i] {
            proof {
                assert(bytes@.subrange(0, HEADER_BYTES as int)[i as int] == bytes@[i as int]);
            }
            return None;
        }
        i += 1;
    }
    proof {
        assert(bytes@.subrange(0, HEADER_BYTES as int) =~= header@);
    }
    let capacity = u64_from_le_bytes(slice_subrange(bytes, 8, 16));
    let utilized = u64_from_le_bytes(slice_subrange(bytes, 16, 24));
    let mut auth: [u8; 32] = [0u8; 32];
    let mut j: usize = 0;
    while j < 32
        invariant
            j <= 32,
            bytes@.len() == WAREHOUSE_SPACE,
            forall|k: int| 0 <= k < j ==> auth@[k] == bytes@[24 + k],
        decreases 32 - j,
    {
        auth[j] = bytes[24 + j];
        j += 1;
    }
    proof {
        assert(auth@ =~= bytes@.subrange(24, 56));
    }
    Some(Warehouse { capacity, utilized, authority: Pubkey { bytes: auth } })
}

/// The persisted form of a record is exactly one record long, opens with
/// its header, and gives each field back: capacity and utilization decode
/// from their little-endian words, and the authority bytes sit at the end.
/// Decoding what was encoded therefore recovers the record.
pub proof fn lemma_record_layout_round_trip(header: Seq<u8>, w: Warehouse)
    requires
        header.len() == HEADER_BYTES,
    ensures
        spec_encode_warehouse(header, w).len() == WAREHOUSE_SPACE,
        spec_encode_warehouse(header, w).subrange(0, HEADER_BYTES as int) == header,
        spec_u64_from_le_bytes(spec_encode_warehouse(header, w).subrange(8, 16)) == w.capacity,
        spec_u64_from_le_bytes(spec_encode_warehouse(header, w).subrange(16, 24)) == w.utilized,
        spec_encode_warehouse(header, w).subrange(24, 56) == w.authority.bytes@,
{
    lemma_auto_spec_u64_to_from_le_bytes();
    let s = spec_encode_warehouse(header, w);
    assert(s.subrange(0, HEADER_BYTES as int) =~= header);
    assert(s.subrange(8, 16) =~= spec_u64_to_le_bytes(w.capacity));
    assert(s.subrange(16, 24) =~= spec_u64_to_le_bytes(w.utilized));
    assert(s.subrange(24, 56) =~= w.authority.bytes@);
}

} // verus!
