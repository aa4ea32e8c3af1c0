//! The host ledger, modelled as a growable run of storage slots. Each slot
//! is addressed by the index the host handed out when it allocated the
//! slot, and either is empty or holds one persisted warehouse record.

use vstd::prelude::*;

use crate::state::Warehouse;

verus! {

/// The record a query returns for an address: the slot's content where the
/// address names an allocated slot, and nothing otherwise.
pub open spec fn spec_warehouse_at(slots: Seq<Option<Warehouse>>, addr: usize) -> Option<Warehouse> {
    if addr < slots.len() {
        slots[addr as int]
    } else {
        None
    }
}

/// The persisted state of the host ledger: one entry per allocated storage
/// slot, in allocation order.
pub struct Ledger {
    slots: Vec<Option<Warehouse>>,
}

impl View for Ledger {
    type V = Seq<Option<Warehouse>>;

    closed spec fn view(&self) -> Seq<Option<Warehouse>> {
        self.slots@
    }
}

impl Ledger {
    /// A ledger with no slots allocated yet.
    pub fn new() -> (l: Ledger)
        ensures
            l@ == Seq::<Option<Warehouse>>::empty(),
    {
        Ledger { slots: Vec::new() }
    }

    /// The host allocates a fresh, previously unused storage slot and
    /// returns its address.
    pub fn allocate_slot(&mut self) -> (addr: usize)
        ensures
            final(self)@ == old(self)@.push(None),
            addr == old(self)@.len(),
    {
        let addr = self.slots.len();
        self.slots.push(None);
        addr
    }

    /// How many slots the host has allocated so far.
    pub fn slot_count(&self) -> (n: usize)
        ensures
            n == self@.len(),
    {
        self.slots.len()
    }

    /// The defined query: the record persisted at a storage address, if
    /// the address names an allocated slot that holds one.
    pub fn warehouse_at(&self, addr: usize) -> (w: Option<Warehouse>)
        ensures
            w == spec_warehouse_at(self@, addr),
    {
        if addr < self.slots.len() {
            self.slots[addr]
        } else {
            None
        }
    }

    /// Persist a record into an allocated slot, replacing whatever the
    /// slot held.
    pub(crate) fn persist(&mut self, addr: usize, w: Warehouse)
        requires
            addr < old(self)@.len(),
        ensures
            final(self)@ == old(self)@.update(addr as int, Some(w)),
    {
        self.slots[addr] = Some(w);
    }
}

} // verus!
