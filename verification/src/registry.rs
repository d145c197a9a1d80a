//! The single-assignment slot that holds the address of the firmware's
//! system table.

use vstd::prelude::*;
use crate::status::Fatal;

verus! {

/// The slot for the system table's address. Zero stands for "nothing
/// captured". Once an address is captured, the slot never changes again.
pub struct TableRegistry {
    address: usize,
}

impl TableRegistry {
    /// The address in the slot; zero while nothing is captured.
    pub closed spec fn slot(&self) -> usize {
        self.address
    }

    /// Whether an address has been captured.
    pub open spec fn captured(&self) -> bool {
        self.slot() != 0
    }

    /// The slot after a capture of `address`: the first non-null address
    /// stays.
    pub open spec fn slot_after_capture(&self, address: usize) -> usize {
        if self.slot() != 0 {
            self.slot()
        } else {
            address
        }
    }

    /// An empty registry.
    pub fn new() -> (registry: TableRegistry)
        ensures
            registry.slot() == 0,
            !registry.captured(),
    {
        TableRegistry { address: 0 }
    }

    /// Stores `address` if nothing was captured before; otherwise does
    /// nothing.
    pub fn capture(&mut self, address: usize)
        ensures
            final(self).slot() == old(self).slot_after_capture(address),
    {
        if self.address == 0 {
            self.address = address;
        }
    }

    /// Whether an address has been captured.
    pub fn is_captured(&self) -> (b: bool)
        ensures
            b == self.captured(),
    {
        self.address != 0
    }

    /// The captured address, or the fatal condition that none was captured
    /// yet.
    pub fn current(&self) -> (result: Result<usize, Fatal>)
        ensures
            result == self.current_spec(),
    {
        if self.address == 0 {
            Err(Fatal::TableNotCaptured)
        } else {
            Ok(self.address)
        }
    }

    /// What `current` returns.
    pub open spec fn current_spec(&self) -> Result<usize, Fatal> {
        if self.captured() {
            Ok(self.slot())
        } else {
            Err(Fatal::TableNotCaptured)
        }
    }
}

/// Captures the address of the firmware's system table. Only the first
/// non-null address is kept.
pub fn register_efi_system_table(registry: &mut TableRegistry, system_table: usize)
    ensures
        final(registry).slot() == old(registry).slot_after_capture(system_table),
{
    registry.capture(system_table);
}

/// The first writer wins: once a non-null address `a` is captured into an
/// empty registry, a later capture of any `b` leaves `a` in place, and
/// `current` gives `a`.
pub proof fn first_capture_wins(
    empty: TableRegistry,
    first: TableRegistry,
    second: TableRegistry,
    a: usize,
    b: usize,
)
    requires
        a != 0,
        !empty.captured(),
        first.slot() == empty.slot_after_capture(a),
        second.slot() == first.slot_after_capture(b),
    ensures
        first.current_spec() == Ok::<usize, Fatal>(a),
        second.current_spec() == Ok::<usize, Fatal>(a),
{
}

/// A captured registry is not changed by any further capture.
pub proof fn capture_is_idempotent(registry: TableRegistry, address: usize)
    requires
        registry.captured(),
    ensures
        registry.slot_after_capture(address) == registry.slot(),
{
}

} // verus!
