//! The persisted data model: the warehouse record, its owning authority,
//! and the sizes its fields occupy on persistence.

use vstd::prelude::*;

verus! {

/// Number of bytes of the record header that precedes the fields of a
/// persisted record.
pub const HEADER_BYTES: usize = 8;

/// Number of bytes the capacity field occupies on persistence.
pub const CAPACITY_BYTES: usize = 8;

/// Number of bytes the utilization field occupies on persistence.
pub const UTILIZED_BYTES: usize = 8;

/// Number of bytes the authority identifier occupies on persistence.
pub const AUTHORITY_BYTES: usize = 32;

/// Total persisted size of one warehouse record: header, capacity,
/// utilization and authority, each stored in full.
pub const WAREHOUSE_SPACE: usize = 8 + 8 + 8 + 32;

/// A 32-byte public identifier naming the account that signs a call.
#[derive(Clone, Copy, PartialEq, Eq, Debug)]
pub struct Pubkey {
    pub bytes: [u8; 32],
}

/// A persisted record tracking one storage facility.
///
/// `capacity` is set once at creation; `utilized` starts at zero and no
/// defined operation mutates it; `authority` is the identity of the signer
/// that created the record and is never reassigned.
#[derive(Clone, Copy, PartialEq, Eq, Debug)]
pub struct Warehouse {
    pub capacity: u64,
    pub utilized: u64,
    pub authority: Pubkey,
}

impl Warehouse {
    /// The record that initialization persists for a requested capacity
    /// and a signing authority: the capacity as requested, utilization
    /// zero, the signer as owner.
    pub open spec fn fresh(capacity: u64, authority: Pubkey) -> Warehouse {
        Warehouse { capacity, utilized: 0, authority }
    }
}

} // verus!
