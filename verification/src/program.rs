//! The program's entry points.
//!
//! Initialization is the one operation with defined behaviour: it persists
//! a fresh warehouse record into a newly allocated slot, and fails without
//! touching anything when the slot already holds a record. The inventory
//! and order entry points accept their arguments, succeed, and by design
//! leave every persisted record exactly as it was: no semantics beyond
//! that is defined for them.

use vstd::prelude::*;

use crate::ledger::Ledger;
use crate::ledger::spec_warehouse_at;
use crate::state::Pubkey;
use crate::state::Warehouse;

verus! {

/// The ways a call into the program can fail.
#[derive(Clone, Copy, PartialEq, Eq, Structural, Debug)]
pub enum LogisticsError {
    /// The storage slot named by an initialization call already holds a
    /// record.
    AlreadyInitialized,
}

/// The accounts an initialization call runs against: the address of the
/// storage slot the host allocated for the record, and the signer that
/// becomes the record's authority.
#[derive(Clone, Copy, PartialEq, Eq, Debug)]
pub struct InitializeWarehouse {
    pub warehouse: usize,
    pub authority: Pubkey,
}

/// The opaque payload handed to order creation. No structure is defined
/// for it; the program never inspects it.
#[derive(Clone, PartialEq, Eq, Debug)]
pub struct OrderData {
    pub payload: Vec<u8>,
}

/// Persist a fresh warehouse record with the requested capacity,
/// utilization zero, and the signer as authority.
///
/// The slot must have been allocated by the host. On a slot that is still
/// empty the call succeeds, and the record becomes queryable by its
/// storage address; on a slot that already holds a record the call fails
/// and the ledger, the existing record's fields included, is left exactly
/// as it was.
pub fn initialize_warehouse(
    ledger: &mut Ledger,
    ctx: InitializeWarehouse,
    capacity: u64,
) -> (r: Result<(), LogisticsError>)
    requires
        ctx.warehouse < old(ledger)@.len(),
    ensures
        old(ledger)@[ctx.warehouse as int] is None ==> {
            &&& r is Ok
            &&& final(ledger)@ == old(ledger)@.update(
                ctx.warehouse as int,
                Some(Warehouse::fresh(capacity, ctx.authority)),
            )
            &&& spec_warehouse_at(final(ledger)@, ctx.warehouse) == Some(
                Warehouse::fresh(capacity, ctx.authority),
            )
        },
        old(ledger)@[ctx.warehouse as int] is Some ==> {
            &&& r == Err::<(), LogisticsError>(LogisticsError::AlreadyInitialized)
            &&& *final(ledger) == *old(ledger)
        },
{
    if ledger.warehouse_at(ctx.warehouse).is_some() {
        return Err(LogisticsError::AlreadyInitialized);
    }
    ledger.persist(ctx.warehouse, Warehouse { capacity, utilized: 0, authority: ctx.authority });
    Ok(())
}

/// Accept a stock-keeping-unit identifier and a signed quantity delta.
///
/// No inventory semantics is defined: the call succeeds for every input
/// and leaves every persisted warehouse record's fields unchanged, so
/// every query answers as it did before the call.
pub fn update_inventory(
    ledger: &mut Ledger,
    sku: String,
    quantity: i64,
) -> (r: Result<(), LogisticsError>)
    ensures
        r is Ok,
        *final(ledger) == *old(ledger),
        forall|addr: usize|
            spec_warehouse_at(final(ledger)@, addr) == spec_warehouse_at(old(ledger)@, addr),
{
    let _ = sku;
    let _ = quantity;
    Ok(())
}

/// Accept an opaque order payload.
///
/// No order semantics is defined: the call succeeds for every payload,
/// persists no new record, and leaves every existing record unchanged, so
/// every query answers as it did before the call.
pub fn create_order(ledger: &mut Ledger, order_data: OrderData) -> (r: Result<
    (),
    LogisticsError,
>)
    ensures
        r is Ok,
        *final(ledger) == *old(ledger),
        forall|addr: usize|
            spec_warehouse_at(final(ledger)@, addr) == spec_warehouse_at(old(ledger)@, addr),
{
    let _ = order_data;
    Ok(())
}

} // verus!
