//! A virtualized GIC-class interrupt controller core: the per-interrupt
//! state machine, register-access dispatch, virtual-to-physical CPU
//! affinity with mask translation, and the cross-core synchronization
//! messages used when an access must mutate state owned by a remote core.

use vstd::prelude::*;

pub mod config;
pub mod cpu;
pub mod dispatch;
pub mod emu;
pub mod ipi;
pub mod state;
pub mod vgic;
pub mod vm;

verus! {

/// Number of private (per-virtual-CPU banked) interrupt identifiers;
/// identifiers at or above this threshold are shared across the VM.
pub const GIC_PRIVINT_NUM: usize = 32;

/// Errors surfaced by the controller core.
#[derive(Copy, Clone, Debug, PartialEq, Eq, Structural)]
pub enum VgicError {
    /// A numeric interrupt-state code outside the encodable range.
    InvalidState,
    /// A virtual CPU identifier out of range for its VM.
    VcpuNotFound,
    /// No virtual CPU of the VM is affined to the given physical core.
    PcpuNotFound,
    /// A request exceeded a configured capacity limit.
    CapacityExceeded,
}

} // verus!
