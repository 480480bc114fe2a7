//! Cross-core synchronization messages: when dispatch must mutate
//! interrupt state owned by a remote physical core, it packages the
//! requested change as one of these messages; the external inter-core
//! transport delivers it and the owning core applies it locally.

use vstd::prelude::*;

verus! {

/// The semantic operation a trapped access was decoded into.
#[derive(Copy, Clone, Debug, PartialEq, Eq, Structural)]
pub enum InitcEvent {
    /// Enable or disable the whole virtual controller.
    VgicdGichEn,
    /// Enable or disable one interrupt.
    VgicdSetEn,
    /// Set or clear the active bit of one interrupt.
    VgicdSetAct,
    /// Set or clear the pending bit of one interrupt.
    VgicdSetPend,
    /// Set the priority byte of one interrupt.
    VgicdSetPrio,
    /// Set the target vCPU of one interrupt.
    VgicdSetTrgt,
    /// Set the configuration bits of one interrupt.
    VgicdSetCfg,
    /// Set the routing target of one interrupt.
    VgicdRoute,
    /// Stage one interrupt for injection (marks it pending).
    Vgicdinject,
    /// No operation.
    NoOp,
}

/// One cross-core state-change request: the operation, the destination
/// VM, the interrupt number, and the associated value byte. Built by the
/// sending core, consumed exactly once by the receiving core.
#[derive(Copy, Clone, Debug, PartialEq, Eq, Structural)]
pub struct IpiInitcMessage {
    /// The requested operation.
    pub event: InitcEvent,
    /// Identifier of the VM whose interrupt state is addressed.
    pub vm_id: usize,
    /// The interrupt number, bounded to the controller's addressable space.
    pub int_id: u16,
    /// The associated value or priority byte.
    pub val: u8,
}

/// Payload of an inter-processor message.
#[derive(Copy, Clone, Debug, PartialEq, Eq, Structural)]
pub enum IpiInnerMsg {
    /// An interrupt-controller state-change request.
    Initc(IpiInitcMessage),
    /// An empty payload.
    Empty,
}

/// Class of an inter-processor message.
#[derive(Copy, Clone, Debug, PartialEq, Eq, Structural)]
pub enum IpiType {
    /// No class; the payload alone identifies the request.
    Untyped,
}

/// An inter-processor message as handed to the external transport.
#[derive(Copy, Clone, Debug, PartialEq, Eq, Structural)]
pub struct IpiMessage {
    /// Message class.
    pub ipi_type: IpiType,
    /// Message payload.
    pub ipi_message: IpiInnerMsg,
}

/// A state-change request addressed to the physical core that owns the
/// interrupt: what dispatch hands to the external inter-core transport.
#[derive(Copy, Clone, Debug, PartialEq, Eq, Structural)]
pub struct CoreMessage {
    /// The physical core that owns the addressed interrupt state.
    pub target_pcpu: usize,
    /// The requested state change.
    pub msg: IpiInitcMessage,
}

} // verus!
