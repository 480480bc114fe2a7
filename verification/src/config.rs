//! The global capability configuration: an immutable snapshot of the
//! controller's capacity, built once at bring-up and passed by value to
//! every component that needs a bound.

use vstd::prelude::*;
use crate::VgicError;

verus! {

/// Capacity snapshot of the virtual controller: list-register (state
/// buffer) slot count, identification registers reported to guests, the
/// maintenance-interrupt line, and the maximum virtual CPUs supported.
#[derive(Copy, Clone, Debug, PartialEq, Eq, Structural)]
pub struct VgicGlobal {
    /// Number of virtual state-buffer (list register) slots.
    pub nr_lr: u32,
    /// Maintenance-interrupt line number.
    pub mainten_irq: u32,
    /// Maximum number of virtual CPUs a VM may be created with.
    pub max_gic_vcpus: u32,
    /// Controller type register value reported to guests.
    pub typer: u32,
    /// Implementer identification register value reported to guests.
    pub iidr: u32,
}

impl VgicGlobal {
    /// Builds the capacity snapshot from the bring-up parameters.
    pub fn new(nr_lr: u32, mainten_irq: u32, max_gic_vcpus: u32, typer: u32, iidr: u32) -> (r: VgicGlobal)
        ensures
            r.nr_lr == nr_lr,
            r.mainten_irq == mainten_irq,
            r.max_gic_vcpus == max_gic_vcpus,
            r.typer == typer,
            r.iidr == iidr,
    {
        VgicGlobal { nr_lr, mainten_irq, max_gic_vcpus, typer, iidr }
    }

    /// Checks a VM-creation request for `nvcpus` virtual CPUs against the
    /// configured maximum; over-capacity requests are refused with
    /// `CapacityExceeded`.
    pub fn check_vcpu_capacity(&self, nvcpus: usize) -> (r: Result<(), VgicError>)
        ensures
            r == if nvcpus <= self.max_gic_vcpus as usize {
                Ok::<(), VgicError>(())
            } else {
                Err::<(), VgicError>(VgicError::CapacityExceeded)
            },
    {
        if nvcpus <= self.max_gic_vcpus as usize {
            Ok(())
        } else {
            Err(VgicError::CapacityExceeded)
        }
    }
}

} // verus!
