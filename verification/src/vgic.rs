//! The virtual distributor state: one record per (VM, interrupt) pair,
//! banked per virtual CPU for private interrupt numbers and shared
//! across the VM above the threshold, with the event application rules
//! that are the only way dispatch mutates a record.

use vstd::prelude::*;
use crate::GIC_PRIVINT_NUM;
use crate::ipi::InitcEvent;
use crate::state::IrqState;
use crate::state::set_active_spec;
use crate::state::set_pend_spec;

verus! {

/// Upper bound on the controller's addressable interrupt space; every
/// interrupt number fits the 16-bit field of a synchronization message.
pub const GIC_INT_MAX: usize = 1024;

/// State of one interrupt of one VM: the four-state machine plus the
/// enable bit, priority byte, target vCPU byte, and configuration byte.
#[derive(Copy, Clone, Debug, PartialEq, Eq, Structural)]
pub struct VgicInt {
    /// Pending/active state.
    pub state: IrqState,
    /// Whether the interrupt is enabled.
    pub enabled: bool,
    /// Priority byte.
    pub prio: u8,
    /// Target vCPU identifier byte; for a shared interrupt this
    /// designates the vCPU (hence core) owning the record.
    pub targets: u8,
    /// Configuration (trigger-mode) byte.
    pub cfg: u8,
}

/// The record every interrupt starts from: inactive, disabled, priority
/// zero, targeting vCPU zero.
pub open spec fn default_int_spec() -> VgicInt {
    VgicInt { state: IrqState::IrqSInactive, enabled: false, prio: 0, targets: 0, cfg: 0 }
}

/// Whether an event mutates a single interrupt record (rather than the
/// controller-level enable, or nothing).
pub open spec fn event_is_record_op(event: InitcEvent) -> bool {
    match event {
        InitcEvent::VgicdSetEn
        | InitcEvent::VgicdSetAct
        | InitcEvent::VgicdSetPend
        | InitcEvent::VgicdSetPrio
        | InitcEvent::VgicdSetTrgt
        | InitcEvent::VgicdSetCfg
        | InitcEvent::VgicdRoute
        | InitcEvent::Vgicdinject => true,
        InitcEvent::VgicdGichEn | InitcEvent::NoOp => false,
    }
}

/// The record after an event is applied to it: pending and active bits
/// move only through the state machine's transitions; the other events
/// replace one byte. Events that are no record operation leave it as is.
pub open spec fn rec_after_event(rec: VgicInt, event: InitcEvent, val: u8) -> VgicInt {
    match event {
        InitcEvent::VgicdSetEn => VgicInt { enabled: val != 0, ..rec },
        InitcEvent::VgicdSetPend => VgicInt { state: set_pend_spec(rec.state, val != 0), ..rec },
        InitcEvent::VgicdSetAct => VgicInt { state: set_active_spec(rec.state, val != 0), ..rec },
        InitcEvent::VgicdSetPrio => VgicInt { prio: val, ..rec },
        InitcEvent::VgicdSetTrgt => VgicInt { targets: val, ..rec },
        InitcEvent::VgicdSetCfg => VgicInt { cfg: val, ..rec },
        InitcEvent::VgicdRoute => VgicInt { targets: val, ..rec },
        InitcEvent::Vgicdinject => VgicInt { state: set_pend_spec(rec.state, true), ..rec },
        InitcEvent::VgicdGichEn | InitcEvent::NoOp => rec,
    }
}

/// Applies an event to one interrupt record.
pub fn apply_event_to_record(rec: VgicInt, event: InitcEvent, val: u8) -> (r: VgicInt)
    ensures
        r == rec_after_event(rec, event, val),
{
    match event {
        InitcEvent::VgicdSetEn => VgicInt { enabled: val != 0, ..rec },
        InitcEvent::VgicdSetPend => VgicInt { state: rec.state.set_pend(val != 0), ..rec },
        InitcEvent::VgicdSetAct => VgicInt { state: rec.state.set_active(val != 0), ..rec },
        InitcEvent::VgicdSetPrio => VgicInt { prio: val, ..rec },
        InitcEvent::VgicdSetTrgt => VgicInt { targets: val, ..rec },
        InitcEvent::VgicdSetCfg => VgicInt { cfg: val, ..rec },
        InitcEvent::VgicdRoute => VgicInt { targets: val, ..rec },
        InitcEvent::Vgicdinject => VgicInt { state: rec.state.set_pend(true), ..rec },
        InitcEvent::VgicdGichEn | InitcEvent::NoOp => rec,
    }
}

/// Per-VM virtual distributor state: the controller enable bit, the
/// identification registers reported to guests, and the interrupt
/// records — private numbers banked per vCPU, shared numbers one per VM.
pub struct Vgic {
    /// Controller enable bit (the distributor control register).
    pub enabled: bool,
    /// Type register value reported to guests.
    pub typer: u32,
    /// Implementer identification value reported to guests.
    pub iidr: u32,
    /// Number of vCPU banks.
    pub cpu_num: usize,
    /// Number of addressable interrupt identifiers.
    pub int_num: usize,
    /// Private interrupt records, one bank per vCPU, flattened: the
    /// record of interrupt `i` of vCPU `c` sits at `c * GIC_PRIVINT_NUM + i`.
    pub priv_ints: Vec<VgicInt>,
    /// Shared interrupt records; interrupt `i` sits at `i - GIC_PRIVINT_NUM`.
    pub shared_ints: Vec<VgicInt>,
}

impl Vgic {
    /// Well-formedness: bank and record counts match the declared
    /// capacities.
    pub open spec fn wf(self) -> bool {
        &&& 1 <= self.cpu_num <= crate::vm::GIC_CPU_MAX
        &&& GIC_PRIVINT_NUM <= self.int_num <= GIC_INT_MAX
        &&& self.priv_ints@.len() == self.cpu_num * GIC_PRIVINT_NUM
        &&& self.shared_ints@.len() == self.int_num - GIC_PRIVINT_NUM
    }

    /// The private record of interrupt `int_id` in vCPU `vcpu`'s bank.
    pub open spec fn priv_at(self, vcpu: int, int_id: int) -> VgicInt {
        self.priv_ints@[vcpu * (GIC_PRIVINT_NUM as int) + int_id]
    }

    /// The shared record of interrupt `int_id`.
    pub open spec fn shared_at(self, int_id: int) -> VgicInt {
        self.shared_ints@[int_id - GIC_PRIVINT_NUM]
    }

    /// The record governing interrupt `int_id` as seen by vCPU `vcpu`:
    /// the vCPU's banked record below the private threshold, the VM's
    /// shared record at or above it.
    pub open spec fn int_at(self, vcpu: int, int_id: int) -> VgicInt {
        if int_id < GIC_PRIVINT_NUM {
            self.priv_at(vcpu, int_id)
        } else {
            self.shared_at(int_id)
        }
    }

    /// Builds a distributor with every interrupt of every bank in its
    /// initial state: inactive, disabled, priority zero, target zero.
    pub fn new(cpu_num: usize, int_num: usize, typer: u32, iidr: u32) -> (r: Vgic)
        requires
            1 <= cpu_num <= crate::vm::GIC_CPU_MAX,
            GIC_PRIVINT_NUM <= int_num <= GIC_INT_MAX,
        ensures
            r.wf(),
            r.enabled == false,
            r.typer == typer,
            r.iidr == iidr,
            r.cpu_num == cpu_num,
            r.int_num == int_num,
            forall|c: int, i: int|
                0 <= c < cpu_num && 0 <= i < GIC_PRIVINT_NUM ==> r.priv_at(c, i)
                    == default_int_spec(),
            forall|i: int|
                GIC_PRIVINT_NUM <= i < int_num ==> r.shared_at(i) == default_int_spec(),
    {
        let npriv = cpu_num * GIC_PRIVINT_NUM;
        let mut priv_ints: Vec<VgicInt> = Vec::new();
        let mut i: usize = 0;
        while i < npriv
            invariant
                i <= npriv,
                priv_ints@.len() == i,
                forall|j: int| 0 <= j < i ==> priv_ints@[j] == default_int_spec(),
            decreases npriv - i,
        {
            priv_ints.push(
                VgicInt {
                    state: IrqState::IrqSInactive,
                    enabled: false,
                    prio: 0,
                    targets: 0,
                    cfg: 0,
                },
            );
            i += 1;
        }
        let nshared = int_num - GIC_PRIVINT_NUM;
        let mut shared_ints: Vec<VgicInt> = Vec::new();
        let mut k: usize = 0;
        while k < nshared
            invariant
                k <= nshared,
                shared_ints@.len() == k,
                forall|j: int| 0 <= j < k ==> shared_ints@[j] == default_int_spec(),
            decreases nshared - k,
        {
            shared_ints.push(
                VgicInt {
                    state: IrqState::IrqSInactive,
                    enabled: false,
                    prio: 0,
                    targets: 0,
                    cfg: 0,
                },
            );
            k += 1;
        }
        Vgic { enabled: false, typer, iidr, cpu_num, int_num, priv_ints, shared_ints }
    }

    /// Reads the private record of interrupt `int_id` in vCPU `vcpu`'s bank.
    pub fn get_priv(&self, vcpu: usize, int_id: usize) -> (r: VgicInt)
        requires
            self.wf(),
            vcpu < self.cpu_num,
            int_id < GIC_PRIVINT_NUM,
        ensures
            r == self.priv_at(vcpu as int, int_id as int),
    {
        self.priv_ints[vcpu * GIC_PRIVINT_NUM + int_id]
    }

    /// Reads the shared record of interrupt `int_id`.
    pub fn get_shared(&self, int_id: usize) -> (r: VgicInt)
        requires
            self.wf(),
            GIC_PRIVINT_NUM <= int_id < self.int_num,
        ensures
            r == self.shared_at(int_id as int),
    {
        self.shared_ints[int_id - GIC_PRIVINT_NUM]
    }

    /// Reads the record governing interrupt `int_id` as seen by vCPU `vcpu`.
    pub fn get_int(&self, vcpu: usize, int_id: usize) -> (r: VgicInt)
        requires
            self.wf(),
            vcpu < self.cpu_num,
            int_id < self.int_num,
        ensures
            r == self.int_at(vcpu as int, int_id as int),
    {
        if int_id < GIC_PRIVINT_NUM {
            self.get_priv(vcpu, int_id)
        } else {
            self.get_shared(int_id)
        }
    }

    /// Replaces the private record of interrupt `int_id` in vCPU
    /// `vcpu`'s bank, leaving every other record and every other field
    /// unchanged.
    pub fn set_priv(&mut self, vcpu: usize, int_id: usize, rec: VgicInt)
        requires
            old(self).wf(),
            vcpu < old(self).cpu_num,
            int_id < GIC_PRIVINT_NUM,
        ensures
            final(self).wf(),
            final(self).enabled == old(self).enabled,
            final(self).typer == old(self).typer,
            final(self).iidr == old(self).iidr,
            final(self).cpu_num == old(self).cpu_num,
            final(self).int_num == old(self).int_num,
            final(self).shared_ints@ == old(self).shared_ints@,
            final(self).priv_at(vcpu as int, int_id as int) == rec,
            forall|c: int, i: int|
                0 <= c < old(self).cpu_num && 0 <= i < GIC_PRIVINT_NUM && !(c == vcpu && i
                    == int_id) ==> final(self).priv_at(c, i) == old(self).priv_at(c, i),
    {
        let idx = vcpu * GIC_PRIVINT_NUM + int_id;
        proof {
            assert(vcpu * (GIC_PRIVINT_NUM as int) + int_id < self.cpu_num * (
            GIC_PRIVINT_NUM as int)) by (nonlinear_arith)
                requires
                    (vcpu as int) < self.cpu_num as int,
                    (int_id as int) < GIC_PRIVINT_NUM as int,
                    0 <= vcpu as int,
                    0 <= int_id as int,
            ;
        }
        self.priv_ints.set(idx, rec);
        proof {
            assert forall|c: int, i: int|
                0 <= c < self.cpu_num && 0 <= i < GIC_PRIVINT_NUM && !(c == vcpu && i
                    == int_id) implies self.priv_at(c, i) == old(self).priv_at(c, i) by {
                assert(c * (GIC_PRIVINT_NUM as int) + i != vcpu * (GIC_PRIVINT_NUM as int)
                    + int_id) by (nonlinear_arith)
                    requires
                        0 <= c,
                        0 <= i < GIC_PRIVINT_NUM as int,
                        0 <= vcpu as int,
                        0 <= (int_id as int) < GIC_PRIVINT_NUM as int,
                        !(c == vcpu as int && i == int_id as int),
                ;
                assert(c * (GIC_PRIVINT_NUM as int) + i < self.cpu_num * (
                GIC_PRIVINT_NUM as int)) by (nonlinear_arith)
                    requires
                        0 <= c < self.cpu_num as int,
                        0 <= i < GIC_PRIVINT_NUM as int,
                ;
            }
        }
    }

    /// Replaces the shared record of interrupt `int_id`, leaving every
    /// other record and every other field unchanged.
    pub fn set_shared(&mut self, int_id: usize, rec: VgicInt)
        requires
            old(self).wf(),
            GIC_PRIVINT_NUM <= int_id < old(self).int_num,
        ensures
            final(self).wf(),
            final(self).enabled == old(self).enabled,
            final(self).typer == old(self).typer,
            final(self).iidr == old(self).iidr,
            final(self).cpu_num == old(self).cpu_num,
            final(self).int_num == old(self).int_num,
            final(self).priv_ints@ == old(self).priv_ints@,
            final(self).shared_at(int_id as int) == rec,
            forall|i: int|
                GIC_PRIVINT_NUM <= i < old(self).int_num && i != int_id
                    ==> final(self).shared_at(i) == old(self).shared_at(i),
    {
        self.shared_ints.set(int_id - GIC_PRIVINT_NUM, rec);
    }

    /// Sets the controller enable bit, leaving every record unchanged.
    pub fn set_enabled(&mut self, en: bool)
        ensures
            final(self).enabled == en,
            final(self).typer == old(self).typer,
            final(self).iidr == old(self).iidr,
            final(self).cpu_num == old(self).cpu_num,
            final(self).int_num == old(self).int_num,
            final(self).priv_ints@ == old(self).priv_ints@,
            final(self).shared_ints@ == old(self).shared_ints@,
    {
        self.enabled = en;
    }
}

} // verus!
