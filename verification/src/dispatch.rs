//! Register-access dispatch and the cross-core synchronization protocol:
//! a decoded operation against an interrupt either mutates the local
//! state machine — when the trapping core owns the record — or is
//! packaged as a message addressed to the owning core, which applies it
//! through the very same rules on receipt.

use vstd::prelude::*;
use crate::GIC_PRIVINT_NUM;
use crate::emu::EmuContext;
use crate::emu::EmuDev;
use crate::emu::EmuDeviceType;
use crate::emu::GICD_BASE;
use crate::emu::GICD_SIZE;
use crate::emu::GicdReg;
use crate::emu::decode_gicd_offset;
use crate::emu::decode_gicd_offset_spec;
use crate::ipi::CoreMessage;
use crate::ipi::InitcEvent;
use crate::ipi::IpiInitcMessage;
use crate::state::active_bit;
use crate::state::pend_bit;
use crate::vgic::Vgic;
use crate::vgic::VgicInt;
use crate::vgic::event_is_record_op;
use crate::vgic::rec_after_event;
use crate::vm::Vm;
use crate::vm::nth_bit;

verus! {

/// Whether an event mutates a single interrupt record.
pub fn is_record_op(event: InitcEvent) -> (r: bool)
    ensures
        r == event_is_record_op(event),
{
    match event {
        InitcEvent::VgicdSetEn
        | InitcEvent::VgicdSetAct
        | InitcEvent::VgicdSetPend
        | InitcEvent::VgicdSetPrio
        | InitcEvent::VgicdSetTrgt
        | InitcEvent::VgicdSetCfg
        | InitcEvent::VgicdRoute
        | InitcEvent::Vgicdinject => true,
        InitcEvent::VgicdGichEn | InitcEvent::NoOp => false,
    }
}

/// The identity, affinity and capacities of a VM are untouched by
/// dispatch: only interrupt records and the controller enable bit move.
pub open spec fn vm_frame(o: Vm, n: Vm) -> bool {
    &&& n.id == o.id
    &&& n.vcpu_list@ == o.vcpu_list@
    &&& n.emu_dev_irqs@ == o.emu_dev_irqs@
    &&& n.vgic.cpu_num == o.vgic.cpu_num
    &&& n.vgic.int_num == o.vgic.int_num
    &&& n.vgic.typer == o.vgic.typer
    &&& n.vgic.iidr == o.vgic.iidr
}

/// All private records but the one named are unchanged.
pub open spec fn priv_unchanged_except(o: Vgic, n: Vgic, c: int, i: int) -> bool {
    &&& n.priv_ints@.len() == o.priv_ints@.len()
    &&& forall|c2: int, i2: int|
        0 <= c2 < o.cpu_num && 0 <= i2 < GIC_PRIVINT_NUM && !(c2 == c && i2 == i) ==> n.priv_at(
            c2,
            i2,
        ) == o.priv_at(c2, i2)
}

/// All shared records but the one named are unchanged.
pub open spec fn shared_unchanged_except(o: Vgic, n: Vgic, i: int) -> bool {
    &&& n.shared_ints@.len() == o.shared_ints@.len()
    &&& forall|i2: int|
        GIC_PRIVINT_NUM <= i2 < o.int_num && i2 != i ==> n.shared_at(i2) == o.shared_at(i2)
}

impl Vm {
    /// The vCPU owning a shared interrupt record: its target byte when
    /// that names a vCPU of this VM, else vCPU zero.
    pub open spec fn shared_owner_vcpu(self, int_id: int) -> int {
        let t = self.vgic.shared_at(int_id).targets as int;
        if t < self.spec_cpu_num() {
            t
        } else {
            0
        }
    }

    /// The physical core owning a shared interrupt record: the core the
    /// owning vCPU is affined to.
    pub open spec fn shared_owner_pcpu(self, int_id: int) -> usize {
        self.vcpu_list@[self.shared_owner_vcpu(int_id)].phys_id
    }

    /// Whether an operation against this interrupt, trapped on
    /// `cur_pcpu`, must be forwarded to a remote owning core.
    pub open spec fn is_remote(self, cur_pcpu: usize, int_id: int) -> bool {
        &&& GIC_PRIVINT_NUM <= int_id < self.vgic.int_num
        &&& self.shared_owner_pcpu(int_id) != cur_pcpu
    }

    /// The synchronization message a remote operation is packaged as.
    pub open spec fn route_msg(self, event: InitcEvent, int_id: int, val: u8) -> CoreMessage {
        CoreMessage {
            target_pcpu: self.shared_owner_pcpu(int_id),
            msg: IpiInitcMessage { event, vm_id: self.id, int_id: int_id as u16, val },
        }
    }

    /// What routing one record operation leaves behind: out-of-range or
    /// non-record operations change nothing; a private number mutates
    /// the trapping vCPU's bank (a no-op when no vCPU of this VM runs on
    /// the trapping core); a shared number owned by the trapping core
    /// mutates the shared record; a shared number owned elsewhere leaves
    /// the state untouched and yields the message for the owning core.
    pub open spec fn route_event_post(
        o: Vm,
        n: Vm,
        r: Option<CoreMessage>,
        cur_pcpu: usize,
        event: InitcEvent,
        int_id: usize,
        val: u8,
    ) -> bool {
        if !event_is_record_op(event) || (int_id as int) >= o.vgic.int_num {
            n.vgic == o.vgic && r is None
        } else if (int_id as int) < GIC_PRIVINT_NUM {
            match o.pcpu_to_vcpu_spec(cur_pcpu) {
                Some(v) => {
                    &&& r is None
                    &&& n.vgic.priv_at(v as int, int_id as int) == rec_after_event(
                        o.vgic.priv_at(v as int, int_id as int),
                        event,
                        val,
                    )
                    &&& priv_unchanged_except(o.vgic, n.vgic, v as int, int_id as int)
                    &&& n.vgic.shared_ints@ == o.vgic.shared_ints@
                    &&& n.vgic.enabled == o.vgic.enabled
                },
                None => n.vgic == o.vgic && r is None,
            }
        } else if o.shared_owner_pcpu(int_id as int) == cur_pcpu {
            &&& r is None
            &&& n.vgic.shared_at(int_id as int) == rec_after_event(
                o.vgic.shared_at(int_id as int),
                event,
                val,
            )
            &&& shared_unchanged_except(o.vgic, n.vgic, int_id as int)
            &&& n.vgic.priv_ints@ == o.vgic.priv_ints@
            &&& n.vgic.enabled == o.vgic.enabled
        } else {
            n.vgic == o.vgic && r == Some(o.route_msg(event, int_id as int, val))
        }
    }

    /// Routes one record operation, trapped or received on `cur_pcpu`:
    /// applies it to the local state machine when this core owns the
    /// record, and otherwise returns the message to hand to the
    /// inter-core transport, mutating nothing.
    pub fn route_event(
        &mut self,
        cur_pcpu: usize,
        event: InitcEvent,
        int_id: usize,
        val: u8,
    ) -> (r: Option<CoreMessage>)
        requires
            old(self).wf(),
        ensures
            final(self).wf(),
            vm_frame(*old(self), *final(self)),
            Self::route_event_post(*old(self), *final(self), r, cur_pcpu, event, int_id, val),
    {
        if !is_record_op(event) {
            return None;
        }
        if int_id >= self.vgic.int_num {
            return None;
        }
        if int_id < GIC_PRIVINT_NUM {
            match self.pcpuid_to_vcpuid(cur_pcpu) {
                Ok(v) => {
                    let rec = self.vgic.get_priv(v, int_id);
                    let newrec = crate::vgic::apply_event_to_record(rec, event, val);
                    self.vgic.set_priv(v, int_id, newrec);
                    None
                },
                Err(_) => None,
            }
        } else {
            let t = self.vgic.get_shared(int_id).targets as usize;
            let owner_vcpu = if t < self.vcpu_list.len() {
                t
            } else {
                0
            };
            let owner_pcpu = self.vcpu_list[owner_vcpu].phys_id;
            if owner_pcpu == cur_pcpu {
                let rec = self.vgic.get_shared(int_id);
                let newrec = crate::vgic::apply_event_to_record(rec, event, val);
                self.vgic.set_shared(int_id, newrec);
                None
            } else {
                Some(
                    CoreMessage {
                        target_pcpu: owner_pcpu,
                        msg: IpiInitcMessage {
                            event,
                            vm_id: self.id,
                            int_id: int_id as u16,
                            val,
                        },
                    },
                )
            }
        }
    }

    /// Applies a received synchronization message on the receiving core
    /// `cur_pcpu`, exactly as if the originating access had trapped
    /// there. A message for another VM is ignored; a message for a
    /// record this core does not own is forwarded onward rather than
    /// applied, so that a record is only ever mutated by its owner.
    pub fn handle_initc_message(&mut self, cur_pcpu: usize, msg: &IpiInitcMessage) -> (r: Option<
        CoreMessage,
    >)
        requires
            old(self).wf(),
        ensures
            final(self).wf(),
            vm_frame(*old(self), *final(self)),
            msg.vm_id != old(self).id ==> final(self).vgic == old(self).vgic && r is None,
            msg.vm_id == old(self).id && event_is_record_op(msg.event)
                ==> Self::route_event_post(
                *old(self),
                *final(self),
                r,
                cur_pcpu,
                msg.event,
                msg.int_id as usize,
                msg.val,
            ),
            msg.vm_id == old(self).id && msg.event == InitcEvent::VgicdGichEn ==> {
                &&& final(self).vgic.enabled == (msg.val != 0)
                &&& final(self).vgic.priv_ints@ == old(self).vgic.priv_ints@
                &&& final(self).vgic.shared_ints@ == old(self).vgic.shared_ints@
                &&& r is None
            },
            msg.vm_id == old(self).id && msg.event == InitcEvent::NoOp ==> final(self).vgic == old(
                self,
            ).vgic && r is None,
    {
        if msg.vm_id != self.id {
            return None;
        }
        match msg.event {
            InitcEvent::VgicdGichEn => {
                self.vgic.set_enabled(msg.val != 0);
                None
            },
            InitcEvent::NoOp => None,
            _ => self.route_event(cur_pcpu, msg.event, msg.int_id as usize, msg.val),
        }
    }
}

/// The byte of `val` at byte position `k`.
pub open spec fn byte_of(val: usize, k: usize) -> u8 {
    ((val >> ((8 * k) as usize)) & 0xff) as u8
}

/// Extracts the byte of `val` at byte position `k`.
pub fn byte_of_val(val: usize, k: usize) -> (r: u8)
    requires
        k < 4,
    ensures
        r == byte_of(val, k),
{
    let sh: usize = 8 * k;
    let x = (val >> sh) & 0xff;
    proof {
        assert((val >> sh) & 0xff < 256) by (bit_vector);
    }
    #[verifier::truncate]
    (x as u8)
}

/// The two-bit configuration field of `val` at field position `k`.
pub open spec fn cfg_of(val: usize, k: usize) -> u8 {
    ((val >> ((2 * k) as usize)) & 3) as u8
}

/// Extracts the two-bit configuration field of `val` at field position `k`.
pub fn cfg_of_val(val: usize, k: usize) -> (r: u8)
    requires
        k < 16,
    ensures
        r == cfg_of(val, k),
{
    let sh: usize = 2 * k;
    let x = (val >> sh) & 3;
    proof {
        assert((val >> sh) & 3 < 4) by (bit_vector);
    }
    #[verifier::truncate]
    (x as u8)
}

/// The messages a write of bit word `bits` to the window starting at
/// interrupt `base` hands to the transport: one per set bit whose
/// interrupt is shared and owned by a remote core, in ascending order.
pub open spec fn bit_sends_spec(
    o: Vm,
    cur_pcpu: usize,
    base: usize,
    bits: usize,
    event: InitcEvent,
    v: u8,
    n: nat,
) -> Seq<CoreMessage>
    decreases n,
{
    if n == 0 {
        Seq::empty()
    } else {
        let prev = bit_sends_spec(o, cur_pcpu, base, bits, event, v, (n - 1) as nat);
        let k = (n - 1) as usize;
        if nth_bit(bits, k) && o.is_remote(cur_pcpu, base + k) {
            prev.push(o.route_msg(event, base + k, v))
        } else {
            prev
        }
    }
}

/// The messages a write of `val` to the byte window starting at
/// interrupt `base` hands to the transport: one per byte whose interrupt
/// is shared and owned by a remote core, in ascending order.
pub open spec fn byte_sends_spec(
    o: Vm,
    cur_pcpu: usize,
    base: usize,
    val: usize,
    event: InitcEvent,
    n: nat,
) -> Seq<CoreMessage>
    decreases n,
{
    if n == 0 {
        Seq::empty()
    } else {
        let prev = byte_sends_spec(o, cur_pcpu, base, val, event, (n - 1) as nat);
        let k = (n - 1) as usize;
        if o.is_remote(cur_pcpu, base + k) {
            prev.push(o.route_msg(event, base + k, byte_of(val, k)))
        } else {
            prev
        }
    }
}

/// The messages a write of `val` to the configuration window starting
/// at interrupt `base` hands to the transport: one per two-bit field
/// whose interrupt is shared and owned by a remote core, in field order.
pub open spec fn cfg_sends_spec(
    o: Vm,
    cur_pcpu: usize,
    base: usize,
    val: usize,
    n: nat,
) -> Seq<CoreMessage>
    decreases n,
{
    if n == 0 {
        Seq::empty()
    } else {
        let prev = cfg_sends_spec(o, cur_pcpu, base, val, (n - 1) as nat);
        let k = (n - 1) as usize;
        if o.is_remote(cur_pcpu, base + k) {
            prev.push(o.route_msg(InitcEvent::VgicdSetCfg, base + k, cfg_of(val, k)))
        } else {
            prev
        }
    }
}

/// What a configuration register write leaves behind: each of the 16
/// two-bit fields applies its value where the writing core owns the
/// record, leaves it for the owner where it does not, and the messages
/// for the owners are exactly `cfg_sends_spec`.
pub open spec fn cfg_write_post(
    o: Vm,
    n: Vm,
    sends: Seq<CoreMessage>,
    cur_pcpu: usize,
    base: usize,
    val: usize,
) -> bool {
    &&& n.vgic.enabled == o.vgic.enabled
    &&& forall|c: int, i: int|
        0 <= c < o.vgic.cpu_num && 0 <= i < GIC_PRIVINT_NUM ==> #[trigger] n.vgic.priv_at(c, i)
            == if base <= i < base + 16 && o.pcpu_to_vcpu_spec(cur_pcpu) == Some(c as usize) {
            rec_after_event(
                o.vgic.priv_at(c, i),
                InitcEvent::VgicdSetCfg,
                cfg_of(val, (i - base) as usize),
            )
        } else {
            o.vgic.priv_at(c, i)
        }
    &&& forall|i: int|
        GIC_PRIVINT_NUM <= i < o.vgic.int_num ==> #[trigger] n.vgic.shared_at(i)
            == if base <= i < base + 16 && o.shared_owner_pcpu(i) == cur_pcpu {
            rec_after_event(
                o.vgic.shared_at(i),
                InitcEvent::VgicdSetCfg,
                cfg_of(val, (i - base) as usize),
            )
        } else {
            o.vgic.shared_at(i)
        }
    &&& sends == cfg_sends_spec(o, cur_pcpu, base, val, 16)
}

/// The controller-enable messages a distributor-control write hands to
/// the transport: one per vCPU of the VM hosted on a core other than the
/// writing one, in vCPU order.
pub open spec fn ctlr_sends_spec(o: Vm, cur_pcpu: usize, v: u8, n: nat) -> Seq<CoreMessage>
    decreases n,
{
    if n == 0 {
        Seq::empty()
    } else {
        let prev = ctlr_sends_spec(o, cur_pcpu, v, (n - 1) as nat);
        let p = o.vcpu_list@[n - 1].phys_id;
        if p != cur_pcpu {
            prev.push(
                CoreMessage {
                    target_pcpu: p,
                    msg: IpiInitcMessage {
                        event: InitcEvent::VgicdGichEn,
                        vm_id: o.id,
                        int_id: 0,
                        val: v,
                    },
                },
            )
        } else {
            prev
        }
    }
}

/// What a bit-per-interrupt register write leaves behind: every set bit
/// applies the event to its interrupt where the writing core owns the
/// record, leaves it for the owner where it does not, and the messages
/// for the owners are exactly `bit_sends_spec`.
pub open spec fn bit_write_post(
    o: Vm,
    n: Vm,
    sends: Seq<CoreMessage>,
    cur_pcpu: usize,
    base: usize,
    bits: usize,
    event: InitcEvent,
    v: u8,
) -> bool {
    &&& n.vgic.enabled == o.vgic.enabled
    &&& forall|c: int, i: int|
        0 <= c < o.vgic.cpu_num && 0 <= i < GIC_PRIVINT_NUM ==> #[trigger] n.vgic.priv_at(c, i)
            == if base <= i < base + 32 && nth_bit(bits, (i - base) as usize)
            && o.pcpu_to_vcpu_spec(cur_pcpu) == Some(c as usize) {
            rec_after_event(o.vgic.priv_at(c, i), event, v)
        } else {
            o.vgic.priv_at(c, i)
        }
    &&& forall|i: int|
        GIC_PRIVINT_NUM <= i < o.vgic.int_num ==> #[trigger] n.vgic.shared_at(i)
            == if base <= i < base + 32 && nth_bit(bits, (i - base) as usize)
            && o.shared_owner_pcpu(i) == cur_pcpu {
            rec_after_event(o.vgic.shared_at(i), event, v)
        } else {
            o.vgic.shared_at(i)
        }
    &&& sends == bit_sends_spec(o, cur_pcpu, base, bits, event, v, 32)
}

/// What a byte-per-interrupt register write of width `w` leaves behind:
/// every covered byte applies the event where the writing core owns the
/// record, leaves it for the owner where it does not, and the messages
/// for the owners are exactly `byte_sends_spec`.
pub open spec fn byte_write_post(
    o: Vm,
    n: Vm,
    sends: Seq<CoreMessage>,
    cur_pcpu: usize,
    base: usize,
    val: usize,
    w: usize,
    event: InitcEvent,
) -> bool {
    &&& n.vgic.enabled == o.vgic.enabled
    &&& forall|c: int, i: int|
        0 <= c < o.vgic.cpu_num && 0 <= i < GIC_PRIVINT_NUM ==> #[trigger] n.vgic.priv_at(c, i)
            == if base <= i < base + w && o.pcpu_to_vcpu_spec(cur_pcpu) == Some(c as usize) {
            rec_after_event(o.vgic.priv_at(c, i), event, byte_of(val, (i - base) as usize))
        } else {
            o.vgic.priv_at(c, i)
        }
    &&& forall|i: int|
        GIC_PRIVINT_NUM <= i < o.vgic.int_num ==> #[trigger] n.vgic.shared_at(i)
            == if base <= i < base + w && o.shared_owner_pcpu(i) == cur_pcpu {
            rec_after_event(o.vgic.shared_at(i), event, byte_of(val, (i - base) as usize))
        } else {
            o.vgic.shared_at(i)
        }
    &&& sends == byte_sends_spec(o, cur_pcpu, base, val, event, w as nat)
}

/// The state bit a bit-per-interrupt register group reads from a record:
/// the enable bit, the pending bit or the active bit.
pub open spec fn sel_bit(rec: VgicInt, reg: GicdReg) -> bool {
    match reg {
        GicdReg::IsEnabler(_) | GicdReg::IcEnabler(_) => rec.enabled,
        GicdReg::IsPendr(_) | GicdReg::IcPendr(_) => pend_bit(rec.state),
        GicdReg::IsActiver(_) | GicdReg::IcActiver(_) => active_bit(rec.state),
        _ => false,
    }
}

/// The bit a read of a bit-per-interrupt register returns for one
/// interrupt, as seen from `cur_pcpu`: a private number reads the bank
/// of the vCPU active there (zero when this VM has none on that core), a
/// shared number reads the VM's record, an out-of-range number reads zero.
pub open spec fn read_bit_of(o: Vm, cur_pcpu: usize, int_id: int, reg: GicdReg) -> bool {
    if 0 <= int_id < o.vgic.int_num {
        if int_id < GIC_PRIVINT_NUM {
            match o.pcpu_to_vcpu_spec(cur_pcpu) {
                Some(v) => sel_bit(o.vgic.priv_at(v as int, int_id), reg),
                None => false,
            }
        } else {
            sel_bit(o.vgic.shared_at(int_id), reg)
        }
    } else {
        false
    }
}

/// The low `n` bits a read of a bit-per-interrupt register word packs:
/// bit `k` is the state bit of interrupt `base + k`.
pub open spec fn pack_bits_spec(o: Vm, cur_pcpu: usize, base: usize, reg: GicdReg, n: nat) -> usize
    decreases n,
{
    if n == 0 {
        0usize
    } else {
        let prev = pack_bits_spec(o, cur_pcpu, base, reg, (n - 1) as nat);
        if read_bit_of(o, cur_pcpu, base + (n - 1), reg) {
            prev | (1usize << ((n - 1) as usize))
        } else {
            prev
        }
    }
}

/// The byte a read of a byte-per-interrupt register returns for one
/// interrupt, as seen from `cur_pcpu`: the target byte when `targ` is
/// set, else the priority byte; zero for out-of-range numbers and for
/// private numbers when this VM has no vCPU on the reading core.
pub open spec fn read_byte_of(o: Vm, cur_pcpu: usize, int_id: int, targ: bool) -> u8 {
    if 0 <= int_id < o.vgic.int_num {
        if int_id < GIC_PRIVINT_NUM {
            match o.pcpu_to_vcpu_spec(cur_pcpu) {
                Some(v) => if targ {
                    o.vgic.priv_at(v as int, int_id).targets
                } else {
                    o.vgic.priv_at(v as int, int_id).prio
                },
                None => 0u8,
            }
        } else {
            if targ {
                o.vgic.shared_at(int_id).targets
            } else {
                o.vgic.shared_at(int_id).prio
            }
        }
    } else {
        0u8
    }
}

/// The value a read of `n` bytes of a byte-per-interrupt register packs:
/// byte `k` is the byte of interrupt `base + k`.
pub open spec fn pack_bytes_spec(o: Vm, cur_pcpu: usize, base: usize, targ: bool, n: nat) -> usize
    decreases n,
{
    if n == 0 {
        0usize
    } else {
        let prev = pack_bytes_spec(o, cur_pcpu, base, targ, (n - 1) as nat);
        prev | ((read_byte_of(o, cur_pcpu, base + (n - 1), targ) as usize) << ((8 * (n - 1)) as usize))
    }
}

/// The configuration byte a read returns for one interrupt, as seen
/// from `cur_pcpu`: zero for out-of-range numbers and for private
/// numbers when this VM has no vCPU on the reading core.
pub open spec fn read_cfg_of(o: Vm, cur_pcpu: usize, int_id: int) -> u8 {
    if 0 <= int_id < o.vgic.int_num {
        if int_id < GIC_PRIVINT_NUM {
            match o.pcpu_to_vcpu_spec(cur_pcpu) {
                Some(v) => o.vgic.priv_at(v as int, int_id).cfg,
                None => 0u8,
            }
        } else {
            o.vgic.shared_at(int_id).cfg
        }
    } else {
        0u8
    }
}

/// The word a read of a configuration register packs: field `k` holds
/// the low two configuration bits of interrupt `base + k`.
pub open spec fn pack_cfg_spec(o: Vm, cur_pcpu: usize, base: usize, n: nat) -> usize
    decreases n,
{
    if n == 0 {
        0usize
    } else {
        let prev = pack_cfg_spec(o, cur_pcpu, base, (n - 1) as nat);
        prev | (((read_cfg_of(o, cur_pcpu, base + (n - 1)) & 3) as usize) << ((2 * (n - 1)) as usize))
    }
}

/// Reads the state bit of one record for a bit-per-interrupt register.
fn sel_bit_of(rec: VgicInt, reg: GicdReg) -> (r: bool)
    ensures
        r == sel_bit(rec, reg),
{
    match reg {
        GicdReg::IsEnabler(_) | GicdReg::IcEnabler(_) => rec.enabled,
        GicdReg::IsPendr(_) | GicdReg::IcPendr(_) => matches!(
            rec.state,
            crate::state::IrqState::IrqSPend,
        ) || matches!(rec.state, crate::state::IrqState::IrqSPendActive),
        GicdReg::IsActiver(_) | GicdReg::IcActiver(_) => matches!(
            rec.state,
            crate::state::IrqState::IrqSActive,
        ) || matches!(rec.state, crate::state::IrqState::IrqSPendActive),
        _ => false,
    }
}

impl Vm {
    /// Reads a 32-bit bit-per-interrupt register word covering the
    /// interrupts `base..base + 32`, as seen from `cur_pcpu`.
    pub fn read_bit_group(&self, cur_pcpu: usize, base: usize, reg: GicdReg) -> (r: usize)
        requires
            self.wf(),
            base <= 0x2000,
        ensures
            r == pack_bits_spec(*self, cur_pcpu, base, reg, 32),
    {
        let cvr = self.pcpuid_to_vcpuid(cur_pcpu);
        let mut res: usize = 0;
        let mut k: usize = 0;
        while k < 32
            invariant
                self.wf(),
                k <= 32,
                base <= 0x2000,
                cvr == match self.pcpu_to_vcpu_spec(cur_pcpu) {
                    Some(v) => Ok::<usize, crate::VgicError>(v),
                    None => Err::<usize, crate::VgicError>(crate::VgicError::PcpuNotFound),
                },
                res == pack_bits_spec(*self, cur_pcpu, base, reg, k as nat),
            decreases 32 - k,
        {
            let id = base + k;
            let bit: bool = if id < self.vgic.int_num {
                if id < GIC_PRIVINT_NUM {
                    match cvr {
                        Ok(v) => sel_bit_of(self.vgic.get_priv(v, id), reg),
                        Err(_) => false,
                    }
                } else {
                    sel_bit_of(self.vgic.get_shared(id), reg)
                }
            } else {
                false
            };
            if bit {
                res |= 1usize << k;
            }
            k += 1;
        }
        res
    }

    /// Reads `w` bytes of a byte-per-interrupt register covering the
    /// interrupts `base..base + w`, as seen from `cur_pcpu`: target
    /// bytes when `targ` is set, else priority bytes.
    pub fn read_byte_group(&self, cur_pcpu: usize, base: usize, targ: bool, w: usize) -> (r: usize)
        requires
            self.wf(),
            base <= 0x2000,
            w <= 4,
        ensures
            r == pack_bytes_spec(*self, cur_pcpu, base, targ, w as nat),
    {
        let cvr = self.pcpuid_to_vcpuid(cur_pcpu);
        let mut res: usize = 0;
        let mut k: usize = 0;
        while k < w
            invariant
                self.wf(),
                k <= w,
                w <= 4,
                base <= 0x2000,
                cvr == match self.pcpu_to_vcpu_spec(cur_pcpu) {
                    Some(v) => Ok::<usize, crate::VgicError>(v),
                    None => Err::<usize, crate::VgicError>(crate::VgicError::PcpuNotFound),
                },
                res == pack_bytes_spec(*self, cur_pcpu, base, targ, k as nat),
            decreases w - k,
        {
            let id = base + k;
            let byte: u8 = if id < self.vgic.int_num {
                if id < GIC_PRIVINT_NUM {
                    match cvr {
                        Ok(v) => {
                            let rec = self.vgic.get_priv(v, id);
                            if targ {
                                rec.targets
                            } else {
                                rec.prio
                            }
                        },
                        Err(_) => 0,
                    }
                } else {
                    let rec = self.vgic.get_shared(id);
                    if targ {
                        rec.targets
                    } else {
                        rec.prio
                    }
                }
            } else {
                0
            };
            res |= (byte as usize) << (8 * k);
            k += 1;
        }
        res
    }

    /// Reads a configuration register word covering the interrupts
    /// `base..base + 16`, two bits per interrupt, as seen from `cur_pcpu`.
    pub fn read_cfg_group(&self, cur_pcpu: usize, base: usize) -> (r: usize)
        requires
            self.wf(),
            base <= 0x2000,
        ensures
            r == pack_cfg_spec(*self, cur_pcpu, base, 16),
    {
        let cvr = self.pcpuid_to_vcpuid(cur_pcpu);
        let mut res: usize = 0;
        let mut k: usize = 0;
        while k < 16
            invariant
                self.wf(),
                k <= 16,
                base <= 0x2000,
                cvr == match self.pcpu_to_vcpu_spec(cur_pcpu) {
                    Some(v) => Ok::<usize, crate::VgicError>(v),
                    None => Err::<usize, crate::VgicError>(crate::VgicError::PcpuNotFound),
                },
                res == pack_cfg_spec(*self, cur_pcpu, base, k as nat),
            decreases 16 - k,
        {
            let id = base + k;
            let cfg: u8 = if id < self.vgic.int_num {
                if id < GIC_PRIVINT_NUM {
                    match cvr {
                        Ok(v) => self.vgic.get_priv(v, id).cfg,
                        Err(_) => 0,
                    }
                } else {
                    self.vgic.get_shared(id).cfg
                }
            } else {
                0
            };
            res |= ((cfg & 3) as usize) << (2 * k);
            k += 1;
        }
        res
    }

    /// Routes one record operation for each of the 16 two-bit fields of
    /// a configuration register word: field `k` addresses interrupt
    /// `base + k` and carries that field. Local records are mutated in
    /// place; operations on remotely owned records come back as
    /// messages, in field order.
    pub fn route_events_by_cfg(&mut self, cur_pcpu: usize, base: usize, val: usize) -> (sends: Vec<
        CoreMessage,
    >)
        requires
            old(self).wf(),
            base <= 0x2000,
        ensures
            final(self).wf(),
            vm_frame(*old(self), *final(self)),
            cfg_write_post(*old(self), *final(self), sends@, cur_pcpu, base, val),
    {
        let mut sends: Vec<CoreMessage> = Vec::new();
        let mut k: usize = 0;
        while k < 16
            invariant
                self.wf(),
                vm_frame(*old(self), *self),
                self.vgic.enabled == old(self).vgic.enabled,
                k <= 16,
                base <= 0x2000,
                forall|c: int, i: int|
                    0 <= c < old(self).vgic.cpu_num && 0 <= i < GIC_PRIVINT_NUM
                        ==> #[trigger] self.vgic.priv_at(c, i) == if base <= i < base + k && old(
                        self,
                    ).pcpu_to_vcpu_spec(cur_pcpu) == Some(c as usize) {
                        rec_after_event(
                            old(self).vgic.priv_at(c, i),
                            InitcEvent::VgicdSetCfg,
                            cfg_of(val, (i - base) as usize),
                        )
                    } else {
                        old(self).vgic.priv_at(c, i)
                    },
                forall|i: int|
                    GIC_PRIVINT_NUM <= i < old(self).vgic.int_num
                        ==> #[trigger] self.vgic.shared_at(i) == if base <= i < base + k && old(
                        self,
                    ).shared_owner_pcpu(i) == cur_pcpu {
                        rec_after_event(
                            old(self).vgic.shared_at(i),
                            InitcEvent::VgicdSetCfg,
                            cfg_of(val, (i - base) as usize),
                        )
                    } else {
                        old(self).vgic.shared_at(i)
                    },
                sends@ == cfg_sends_spec(*old(self), cur_pcpu, base, val, k as nat),
            decreases 16 - k,
        {
            let b = cfg_of_val(val, k);
            proof {
                crate::vm::lemma_pcpu_to_vcpu_congruent(*self, *old(self), cur_pcpu);
            }
            let ghost mid = *self;
            let m = self.route_event(cur_pcpu, InitcEvent::VgicdSetCfg, base + k, b);
            proof {
                assert(b == cfg_of(val, k));
                assert(mid.pcpu_to_vcpu_spec(cur_pcpu) == old(self).pcpu_to_vcpu_spec(cur_pcpu));
                assert(Vm::route_event_post(
                    mid,
                    *self,
                    m,
                    cur_pcpu,
                    InitcEvent::VgicdSetCfg,
                    (base + k) as usize,
                    b,
                ));
                if base + k < GIC_PRIVINT_NUM && mid.pcpu_to_vcpu_spec(cur_pcpu) is Some {
                    let v = mid.pcpu_to_vcpu_spec(cur_pcpu).unwrap();
                    assert(mid.vgic.priv_at(v as int, (base + k) as int) == old(
                        self,
                    ).vgic.priv_at(v as int, (base + k) as int));
                    assert(self.vgic.priv_at(v as int, (base + k) as int) == rec_after_event(
                        mid.vgic.priv_at(v as int, (base + k) as int),
                        InitcEvent::VgicdSetCfg,
                        b,
                    ));
                }
                assert forall|i: int|
                    GIC_PRIVINT_NUM <= i < old(self).vgic.int_num implies #[trigger] self.vgic.shared_at(
                    i,
                ) == (if base <= i < base + k + 1 && old(self).shared_owner_pcpu(i) == cur_pcpu {
                    rec_after_event(
                        old(self).vgic.shared_at(i),
                        InitcEvent::VgicdSetCfg,
                        cfg_of(val, (i - base) as usize),
                    )
                } else {
                    old(self).vgic.shared_at(i)
                }) by {
                    if i != base + k {
                        assert(self.vgic.shared_at(i) == mid.vgic.shared_at(i));
                    }
                }
            }
            if let Some(cm) = m {
                sends.push(cm);
            }
            k += 1;
        }
        sends
    }

    /// Routes one record operation for each set bit of a 32-bit register
    /// word: bit `k` addresses interrupt `base + k`. Local records are
    /// mutated in place; operations on remotely owned records are
    /// returned as messages for the owning cores, in bit order.
    pub fn route_events_by_bit(
        &mut self,
        cur_pcpu: usize,
        base: usize,
        bits: usize,
        event: InitcEvent,
        v: u8,
    ) -> (sends: Vec<CoreMessage>)
        requires
            old(self).wf(),
            event_is_record_op(event),
            base <= 0x2000,
        ensures
            final(self).wf(),
            vm_frame(*old(self), *final(self)),
            bit_write_post(*old(self), *final(self), sends@, cur_pcpu, base, bits, event, v),
    {
        let mut sends: Vec<CoreMessage> = Vec::new();
        let mut k: usize = 0;
        while k < 32
            invariant
                self.wf(),
                vm_frame(*old(self), *self),
                self.vgic.enabled == old(self).vgic.enabled,
                k <= 32,
                base <= 0x2000,
                event_is_record_op(event),
                forall|c: int, i: int|
                    0 <= c < old(self).vgic.cpu_num && 0 <= i < GIC_PRIVINT_NUM
                        ==> #[trigger] self.vgic.priv_at(c, i) == if base <= i < base + k
                        && nth_bit(bits, (i - base) as usize) && old(self).pcpu_to_vcpu_spec(
                        cur_pcpu,
                    ) == Some(c as usize) {
                        rec_after_event(old(self).vgic.priv_at(c, i), event, v)
                    } else {
                        old(self).vgic.priv_at(c, i)
                    },
                forall|i: int|
                    GIC_PRIVINT_NUM <= i < old(self).vgic.int_num
                        ==> #[trigger] self.vgic.shared_at(i) == if base <= i < base + k
                        && nth_bit(bits, (i - base) as usize) && old(self).shared_owner_pcpu(i)
                        == cur_pcpu {
                        rec_after_event(old(self).vgic.shared_at(i), event, v)
                    } else {
                        old(self).vgic.shared_at(i)
                    },
                sends@ == bit_sends_spec(*old(self), cur_pcpu, base, bits, event, v, k as nat),
            decreases 32 - k,
        {
            if bits & (1usize << k) != 0 {
                proof {
                    crate::vm::lemma_pcpu_to_vcpu_congruent(*self, *old(self), cur_pcpu);
                }
                let m = self.route_event(cur_pcpu, event, base + k, v);
                if let Some(cm) = m {
                    sends.push(cm);
                }
            }
            k += 1;
        }
        sends
    }

    /// Routes one record operation for each of the `w` bytes of a write
    /// value: byte `k` addresses interrupt `base + k` and carries that
    /// byte. Local records are mutated in place; operations on remotely
    /// owned records are returned as messages, in byte order.
    pub fn route_events_by_byte(
        &mut self,
        cur_pcpu: usize,
        base: usize,
        val: usize,
        w: usize,
        event: InitcEvent,
    ) -> (sends: Vec<CoreMessage>)
        requires
            old(self).wf(),
            event_is_record_op(event),
            base <= 0x2000,
            w <= 4,
        ensures
            final(self).wf(),
            vm_frame(*old(self), *final(self)),
            byte_write_post(*old(self), *final(self), sends@, cur_pcpu, base, val, w, event),
    {
        let mut sends: Vec<CoreMessage> = Vec::new();
        let mut k: usize = 0;
        while k < w
            invariant
                self.wf(),
                vm_frame(*old(self), *self),
                self.vgic.enabled == old(self).vgic.enabled,
                k <= w,
                w <= 4,
                base <= 0x2000,
                event_is_record_op(event),
                forall|c: int, i: int|
                    0 <= c < old(self).vgic.cpu_num && 0 <= i < GIC_PRIVINT_NUM
                        ==> #[trigger] self.vgic.priv_at(c, i) == if base <= i < base + k && old(
                        self,
                    ).pcpu_to_vcpu_spec(cur_pcpu) == Some(c as usize) {
                        rec_after_event(
                            old(self).vgic.priv_at(c, i),
                            event,
                            byte_of(val, (i - base) as usize),
                        )
                    } else {
                        old(self).vgic.priv_at(c, i)
                    },
                forall|i: int|
                    GIC_PRIVINT_NUM <= i < old(self).vgic.int_num
                        ==> #[trigger] self.vgic.shared_at(i) == if base <= i < base + k && old(
                        self,
                    ).shared_owner_pcpu(i) == cur_pcpu {
                        rec_after_event(
                            old(self).vgic.shared_at(i),
                            event,
                            byte_of(val, (i - base) as usize),
                        )
                    } else {
                        old(self).vgic.shared_at(i)
                    },
                sends@ == byte_sends_spec(*old(self), cur_pcpu, base, val, event, k as nat),
            decreases w - k,
        {
            let b = byte_of_val(val, k);
            proof {
                crate::vm::lemma_pcpu_to_vcpu_congruent(*self, *old(self), cur_pcpu);
            }
            let ghost mid = *self;
            let m = self.route_event(cur_pcpu, event, base + k, b);
            proof {
                assert(b == byte_of(val, k));
                assert(mid.pcpu_to_vcpu_spec(cur_pcpu) == old(self).pcpu_to_vcpu_spec(cur_pcpu));
                assert(Vm::route_event_post(mid, *self, m, cur_pcpu, event, (base + k) as usize, b));
                if base + k < GIC_PRIVINT_NUM && mid.pcpu_to_vcpu_spec(cur_pcpu) is Some {
                    let v = mid.pcpu_to_vcpu_spec(cur_pcpu).unwrap();
                    assert(mid.vgic.priv_at(v as int, (base + k) as int) == old(
                        self,
                    ).vgic.priv_at(v as int, (base + k) as int));
                    assert(self.vgic.priv_at(v as int, (base + k) as int) == rec_after_event(
                        mid.vgic.priv_at(v as int, (base + k) as int),
                        event,
                        b,
                    ));
                }
                assert forall|c: int, i: int|
                    0 <= c < old(self).vgic.cpu_num && 0 <= i < GIC_PRIVINT_NUM implies #[trigger] self.vgic.priv_at(
                    c,
                    i,
                ) == (if base <= i < base + k + 1 && old(self).pcpu_to_vcpu_spec(cur_pcpu) == Some(
                    c as usize,
                ) {
                    rec_after_event(
                        old(self).vgic.priv_at(c, i),
                        event,
                        byte_of(val, (i - base) as usize),
                    )
                } else {
                    old(self).vgic.priv_at(c, i)
                }) by {
                    if !(i == base + k && mid.pcpu_to_vcpu_spec(cur_pcpu) == Some(c as usize)) {
                        assert(self.vgic.priv_at(c, i) == mid.vgic.priv_at(c, i));
                    }
                }
                assert forall|i: int|
                    GIC_PRIVINT_NUM <= i < old(self).vgic.int_num implies #[trigger] self.vgic.shared_at(
                    i,
                ) == (if base <= i < base + k + 1 && old(self).shared_owner_pcpu(i) == cur_pcpu {
                    rec_after_event(
                        old(self).vgic.shared_at(i),
                        event,
                        byte_of(val, (i - base) as usize),
                    )
                } else {
                    old(self).vgic.shared_at(i)
                }) by {
                    if i != base + k {
                        assert(self.vgic.shared_at(i) == mid.vgic.shared_at(i));
                    }
                }
            }
            if let Some(cm) = m {
                sends.push(cm);
            }
            k += 1;
        }
        sends
    }

    /// Builds the controller-enable messages for every core other than
    /// the writing one that hosts a vCPU of this VM.
    pub fn broadcast_gich_en(&self, cur_pcpu: usize, v: u8) -> (sends: Vec<CoreMessage>)
        requires
            self.aff_wf(),
        ensures
            sends@ == ctlr_sends_spec(*self, cur_pcpu, v, self.spec_cpu_num() as nat),
    {
        let mut sends: Vec<CoreMessage> = Vec::new();
        let n = self.vcpu_list.len();
        let mut k: usize = 0;
        while k < n
            invariant
                self.aff_wf(),
                k <= n,
                n == self.spec_cpu_num(),
                sends@ == ctlr_sends_spec(*self, cur_pcpu, v, k as nat),
            decreases n - k,
        {
            let p = self.vcpu_list[k].phys_id;
            if p != cur_pcpu {
                sends.push(
                    CoreMessage {
                        target_pcpu: p,
                        msg: IpiInitcMessage {
                            event: InitcEvent::VgicdGichEn,
                            vm_id: self.id,
                            int_id: 0,
                            val: v,
                        },
                    },
                );
            }
            k += 1;
        }
        sends
    }
}

/// What dispatch returns for one trapped access: the value to place in
/// the guest's register for a read, and the synchronization messages to
/// hand to the inter-core transport for remotely owned records.
pub struct AccessResult {
    /// The value for the guest register; present exactly for reads.
    pub read_value: Option<usize>,
    /// Messages for the owning cores, in decode order.
    pub sends: Vec<CoreMessage>,
}

/// Whether an address falls in the distributor register window.
pub open spec fn in_dist_window(addr: usize) -> bool {
    GICD_BASE <= addr < GICD_BASE + GICD_SIZE
}

/// The byte offset of an address within the distributor window.
pub open spec fn dist_off(addr: usize) -> usize {
    (addr - GICD_BASE) as usize
}

/// The value a read of a decoded distributor register returns.
pub open spec fn read_value_spec(
    o: Vm,
    cur_pcpu: usize,
    reg: GicdReg,
    w: usize,
) -> usize {
    match reg {
        GicdReg::Ctlr => if o.vgic.enabled {
            1usize
        } else {
            0usize
        },
        GicdReg::Typer => o.vgic.typer as usize,
        GicdReg::Iidr => o.vgic.iidr as usize,
        GicdReg::IsEnabler(b) => pack_bits_spec(o, cur_pcpu, b, reg, 32),
        GicdReg::IcEnabler(b) => pack_bits_spec(o, cur_pcpu, b, reg, 32),
        GicdReg::IsPendr(b) => pack_bits_spec(o, cur_pcpu, b, reg, 32),
        GicdReg::IcPendr(b) => pack_bits_spec(o, cur_pcpu, b, reg, 32),
        GicdReg::IsActiver(b) => pack_bits_spec(o, cur_pcpu, b, reg, 32),
        GicdReg::IcActiver(b) => pack_bits_spec(o, cur_pcpu, b, reg, 32),
        GicdReg::Priorityr(b) => pack_bytes_spec(o, cur_pcpu, b, false, w as nat),
        GicdReg::Targetsr(b) => pack_bytes_spec(o, cur_pcpu, b, true, w as nat),
        GicdReg::Icfgr(b) => pack_cfg_spec(o, cur_pcpu, b, 16),
        GicdReg::Unsupported => 0usize,
    }
}

/// What one trapped access leaves behind. An address outside the window
/// and a reserved offset are permissive: reads return zero, writes are
/// ignored. A read never mutates and never sends. A write drives the
/// decoded operation through the routing rules, register group by
/// register group; the control register additionally broadcasts the
/// enable to the other cores hosting this VM.
pub open spec fn access_post(
    o: Vm,
    n: Vm,
    r: AccessResult,
    ctx: EmuContext,
    cur_pcpu: usize,
    val: usize,
) -> bool {
    let w = if ctx.width < 4 {
        ctx.width
    } else {
        4usize
    };
    if !in_dist_window(ctx.address) {
        &&& n.vgic == o.vgic
        &&& r.sends@.len() == 0
        &&& r.read_value == if ctx.write {
            None::<usize>
        } else {
            Some(0usize)
        }
    } else {
        let reg = decode_gicd_offset_spec(dist_off(ctx.address));
        if !ctx.write {
            &&& n.vgic == o.vgic
            &&& r.sends@.len() == 0
            &&& r.read_value == Some(read_value_spec(o, cur_pcpu, reg, w))
        } else {
            &&& r.read_value is None
            &&& match reg {
                GicdReg::Ctlr => {
                    &&& n.vgic.enabled == (val & 1 != 0)
                    &&& n.vgic.priv_ints@ == o.vgic.priv_ints@
                    &&& n.vgic.shared_ints@ == o.vgic.shared_ints@
                    &&& r.sends@ == ctlr_sends_spec(o, cur_pcpu, (val & 1) as u8, o.spec_cpu_num() as nat)
                },
                GicdReg::Typer | GicdReg::Iidr | GicdReg::Unsupported => {
                    &&& n.vgic == o.vgic
                    &&& r.sends@.len() == 0
                },
                GicdReg::IsEnabler(b) => bit_write_post(o, n, r.sends@, cur_pcpu, b, val, InitcEvent::VgicdSetEn, 1),
                GicdReg::IcEnabler(b) => bit_write_post(o, n, r.sends@, cur_pcpu, b, val, InitcEvent::VgicdSetEn, 0),
                GicdReg::IsPendr(b) => bit_write_post(o, n, r.sends@, cur_pcpu, b, val, InitcEvent::VgicdSetPend, 1),
                GicdReg::IcPendr(b) => bit_write_post(o, n, r.sends@, cur_pcpu, b, val, InitcEvent::VgicdSetPend, 0),
                GicdReg::IsActiver(b) => bit_write_post(o, n, r.sends@, cur_pcpu, b, val, InitcEvent::VgicdSetAct, 1),
                GicdReg::IcActiver(b) => bit_write_post(o, n, r.sends@, cur_pcpu, b, val, InitcEvent::VgicdSetAct, 0),
                GicdReg::Priorityr(b) => byte_write_post(o, n, r.sends@, cur_pcpu, b, val, w, InitcEvent::VgicdSetPrio),
                GicdReg::Targetsr(b) => byte_write_post(o, n, r.sends@, cur_pcpu, b, val, w, InitcEvent::VgicdSetTrgt),
                GicdReg::Icfgr(b) => cfg_write_post(o, n, r.sends@, cur_pcpu, b, val),
            }
        }
    }
}

impl Vm {
    /// Dispatches one trapped register access on `cur_pcpu`. For a
    /// write, `val` is the value the guest register carries; for a read,
    /// the returned value is to be placed in the guest register by the
    /// trap handler. Records owned by the trapping core are mutated in
    /// place; operations on remotely owned records come back as messages
    /// for the inter-core transport, and nothing local is mutated for them.
    pub fn handle_access(&mut self, ctx: &EmuContext, cur_pcpu: usize, val: usize) -> (r:
        AccessResult)
        requires
            old(self).wf(),
        ensures
            final(self).wf(),
            vm_frame(*old(self), *final(self)),
            access_post(*old(self), *final(self), r, *ctx, cur_pcpu, val),
    {
        let w: usize = if ctx.width < 4 {
            ctx.width
        } else {
            4
        };
        if ctx.address < GICD_BASE || ctx.address >= GICD_BASE + GICD_SIZE {
            return AccessResult {
                read_value: if ctx.write {
                    None
                } else {
                    Some(0)
                },
                sends: Vec::new(),
            };
        }
        let off = ctx.address - GICD_BASE;
        let reg = decode_gicd_offset(off);
        proof {
            assert(off < 0x1000);
            assert(match decode_gicd_offset_spec(off) {
                GicdReg::IsEnabler(b) => b <= 0x2000,
                GicdReg::IcEnabler(b) => b <= 0x2000,
                GicdReg::IsPendr(b) => b <= 0x2000,
                GicdReg::IcPendr(b) => b <= 0x2000,
                GicdReg::IsActiver(b) => b <= 0x2000,
                GicdReg::IcActiver(b) => b <= 0x2000,
                GicdReg::Priorityr(b) => b <= 0x2000,
                GicdReg::Targetsr(b) => b <= 0x2000,
                GicdReg::Icfgr(b) => b <= 0x2000,
                _ => true,
            }) by (nonlinear_arith)
                requires
                    off < 0x1000,
            ;
        }
        if !ctx.write {
            let v: usize = match reg {
                GicdReg::Ctlr => if self.vgic.enabled {
                    1
                } else {
                    0
                },
                GicdReg::Typer => self.vgic.typer as usize,
                GicdReg::Iidr => self.vgic.iidr as usize,
                GicdReg::IsEnabler(b)
                | GicdReg::IcEnabler(b)
                | GicdReg::IsPendr(b)
                | GicdReg::IcPendr(b)
                | GicdReg::IsActiver(b)
                | GicdReg::IcActiver(b) => self.read_bit_group(cur_pcpu, b, reg),
                GicdReg::Priorityr(b) => self.read_byte_group(cur_pcpu, b, false, w),
                GicdReg::Targetsr(b) => self.read_byte_group(cur_pcpu, b, true, w),
                GicdReg::Icfgr(b) => self.read_cfg_group(cur_pcpu, b),
                GicdReg::Unsupported => 0,
            };
            AccessResult { read_value: Some(v), sends: Vec::new() }
        } else {
            match reg {
                GicdReg::Ctlr => {
                    let sends = self.broadcast_gich_en(cur_pcpu, (val & 1) as u8);
                    self.vgic.set_enabled(val & 1 != 0);
                    AccessResult { read_value: None, sends }
                },
                GicdReg::Typer | GicdReg::Iidr | GicdReg::Unsupported => AccessResult {
                    read_value: None,
                    sends: Vec::new(),
                },
                GicdReg::IsEnabler(b) => AccessResult {
                    read_value: None,
                    sends: self.route_events_by_bit(cur_pcpu, b, val, InitcEvent::VgicdSetEn, 1),
                },
                GicdReg::IcEnabler(b) => AccessResult {
                    read_value: None,
                    sends: self.route_events_by_bit(cur_pcpu, b, val, InitcEvent::VgicdSetEn, 0),
                },
                GicdReg::IsPendr(b) => AccessResult {
                    read_value: None,
                    sends: self.route_events_by_bit(cur_pcpu, b, val, InitcEvent::VgicdSetPend, 1),
                },
                GicdReg::IcPendr(b) => AccessResult {
                    read_value: None,
                    sends: self.route_events_by_bit(cur_pcpu, b, val, InitcEvent::VgicdSetPend, 0),
                },
                GicdReg::IsActiver(b) => AccessResult {
                    read_value: None,
                    sends: self.route_events_by_bit(cur_pcpu, b, val, InitcEvent::VgicdSetAct, 1),
                },
                GicdReg::IcActiver(b) => AccessResult {
                    read_value: None,
                    sends: self.route_events_by_bit(cur_pcpu, b, val, InitcEvent::VgicdSetAct, 0),
                },
                GicdReg::Priorityr(b) => AccessResult {
                    read_value: None,
                    sends: self.route_events_by_byte(cur_pcpu, b, val, w, InitcEvent::VgicdSetPrio),
                },
                GicdReg::Targetsr(b) => AccessResult {
                    read_value: None,
                    sends: self.route_events_by_byte(cur_pcpu, b, val, w, InitcEvent::VgicdSetTrgt),
                },
                GicdReg::Icfgr(b) => AccessResult {
                    read_value: None,
                    sends: self.route_events_by_cfg(cur_pcpu, b, val),
                },
            }
        }
    }
}

/// The VM's distributor is itself an emulated device: it claims the
/// distributor window and consumes the accesses that fall inside it.
impl EmuDev for Vm {
    open spec fn spec_emu_type(&self) -> EmuDeviceType {
        EmuDeviceType::EmuDeviceTGicd
    }

    open spec fn spec_address_range(&self) -> (usize, usize) {
        (GICD_BASE, (GICD_BASE + GICD_SIZE) as usize)
    }

    fn emu_type(&self) -> (r: EmuDeviceType) {
        EmuDeviceType::EmuDeviceTGicd
    }

    fn address_range(&self) -> (r: (usize, usize)) {
        (GICD_BASE, GICD_BASE + GICD_SIZE)
    }

    fn handler(&self, emu_ctx: &EmuContext) -> (r: bool) {
        GICD_BASE <= emu_ctx.address && emu_ctx.address < GICD_BASE + GICD_SIZE
    }
}

} // verus!
