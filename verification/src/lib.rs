//! Warehouse registry: a small ledger program that tracks one storage
//! facility's capacity per persisted record.
//!
//! The library models the host ledger as a vector of storage slots, each
//! either empty or holding a `Warehouse` record, and verifies the three
//! entry points against that model: initialization populates a fresh slot
//! exactly once, while inventory updates and order creation accept their
//! arguments and leave every persisted record untouched. The `codec`
//! module fixes the persisted layout of a record: an 8-byte header
//! followed by the capacity, utilization and authority fields.

pub mod codec;
pub mod ledger;
pub mod program;
pub mod state;
