//! Virtual machines and virtual CPUs: the fixed virtual-to-physical core
//! affinity of each vCPU, single-identifier lookups in both directions,
//! and translation of vCPU bitmasks to physical-core bitmasks and back.

use vstd::prelude::*;
use crate::VgicError;
use crate::GIC_PRIVINT_NUM;
use crate::config::VgicGlobal;
use crate::state::pend_bit;
use crate::vgic::GIC_INT_MAX;
use crate::vgic::Vgic;

verus! {

/// Hard bound on virtual CPUs per VM and on physical-core identifiers:
/// both must index into one machine-word bitmask, portably 32 bits.
pub const GIC_CPU_MAX: usize = 32;

/// A virtual CPU: its identifier within the VM, the physical core it is
/// affined to, and a non-owning back-reference to its VM by identifier.
/// Immutable after creation.
#[derive(Copy, Clone, Debug, PartialEq, Eq, Structural)]
pub struct Vcpu {
    /// Identifier, unique within the owning VM (its index in the VM's list).
    pub id: usize,
    /// Physical core this vCPU is affined to.
    pub phys_id: usize,
    /// Identifier of the owning VM.
    pub vm_id: usize,
}

impl Vcpu {
    /// The owning VM, looked up by the vCPU's non-owning back-reference
    /// in the given VM list; nothing when the VM is not listed (a vCPU
    /// must never be used after its VM's teardown).
    pub fn vm<'a>(&self, vms: &'a Vec<Vm>) -> (r: Option<&'a Vm>)
        ensures
            match r {
                Some(vm) => vm.id == self.vm_id && exists|k: int|
                    0 <= k < vms@.len() && (#[trigger] vms@[k]) == *vm,
                None => forall|k: int| 0 <= k < vms@.len() ==> (#[trigger] vms@[k]).id != self.vm_id,
            },
    {
        let n = vms.len();
        let mut k: usize = 0;
        while k < n
            invariant
                n == vms@.len(),
                k <= n,
                forall|j: int| 0 <= j < k ==> (#[trigger] vms@[j]).id != self.vm_id,
            decreases n - k,
        {
            if vms[k].id == self.vm_id {
                return Some(&vms[k]);
            }
            k += 1;
        }
        None
    }

    /// The vCPU's identifier within its VM.
    pub fn id(&self) -> (r: usize)
        ensures
            r == self.id,
    {
        self.id
    }

    /// The identifier of the owning VM.
    pub fn vm_id(&self) -> (r: usize)
        ensures
            r == self.vm_id,
    {
        self.vm_id
    }

    /// The physical core this vCPU is affined to.
    pub fn phys_id(&self) -> (r: usize)
        ensures
            r == self.phys_id,
    {
        self.phys_id
    }
}

/// A virtual machine: its identity, its insertion-stable list of
/// virtual CPUs indexed by vCPU identifier, its virtual distributor
/// state, and the interrupt lines claimed by its emulated devices.
pub struct Vm {
    /// VM identifier.
    pub id: usize,
    /// The VM's virtual CPUs; index equals vCPU identifier.
    pub vcpu_list: Vec<Vcpu>,
    /// The VM's virtual distributor state.
    pub vgic: Vgic,
    /// Interrupt lines sourced by the VM's emulated devices.
    pub emu_dev_irqs: Vec<usize>,
}

/// Whether bit `i` of mask `m` is set.
pub open spec fn nth_bit(m: usize, i: usize) -> bool {
    m & (1usize << i) != 0
}

impl Vm {
    /// Well-formedness of the affinity record: at least one vCPU, no
    /// more than one bitmask can index, list index equals vCPU
    /// identifier, back-references match, physical identifiers are in
    /// bitmask range, and no two vCPUs share a physical core.
    pub open spec fn aff_wf(self) -> bool {
        &&& 1 <= self.vcpu_list@.len() <= GIC_CPU_MAX
        &&& forall|i: int| 0 <= i < self.vcpu_list@.len()
                ==> (#[trigger] self.vcpu_list@[i]).id == i
        &&& forall|i: int| 0 <= i < self.vcpu_list@.len()
                ==> (#[trigger] self.vcpu_list@[i]).vm_id == self.id
        &&& forall|i: int| 0 <= i < self.vcpu_list@.len()
                ==> (#[trigger] self.vcpu_list@[i]).phys_id < GIC_CPU_MAX
        &&& forall|i: int, j: int|
                0 <= i < self.vcpu_list@.len() && 0 <= j < self.vcpu_list@.len() && i != j
                ==> (#[trigger] self.vcpu_list@[i]).phys_id
                    != (#[trigger] self.vcpu_list@[j]).phys_id
    }

    /// Number of virtual CPUs.
    pub open spec fn spec_cpu_num(self) -> int {
        self.vcpu_list@.len() as int
    }

    /// The physical core a vCPU identifier maps to, when it is in range.
    pub open spec fn vcpu_to_pcpu_spec(self, vcpuid: usize) -> Option<usize> {
        if (vcpuid as int) < self.spec_cpu_num() {
            Some(self.vcpu_list@[vcpuid as int].phys_id)
        } else {
            None
        }
    }

    /// The vCPU identifier affined to a physical core, when one is.
    pub open spec fn pcpu_to_vcpu_spec(self, pcpuid: usize) -> Option<usize> {
        if exists|v: int|
            0 <= v < self.spec_cpu_num() && (#[trigger] self.vcpu_list@[v]).phys_id == pcpuid {
            Some(
                (choose|v: int|
                    0 <= v < self.spec_cpu_num()
                        && (#[trigger] self.vcpu_list@[v]).phys_id == pcpuid) as usize,
            )
        } else {
            None
        }
    }

    /// Full well-formedness: a valid affinity record and a distributor
    /// with one private bank per vCPU.
    pub open spec fn wf(self) -> bool {
        &&& self.aff_wf()
        &&& self.vgic.wf()
        &&& self.vgic.cpu_num == self.vcpu_list@.len()
    }

    /// Creates a VM with the given identity and per-vCPU physical-core
    /// assignment (at least one vCPU: the VM owns its vCPUs and every
    /// record needs a designated owner), a distributor for `int_num`
    /// interrupt identifiers sized by the capability snapshot, and the
    /// given emulated-device interrupt lines. A request for more vCPUs
    /// than `max_gic_vcpus`, or than one bitmask can index, is refused
    /// with `CapacityExceeded`; every request within capacity succeeds.
    pub fn new(
        id: usize,
        phys_ids: &Vec<usize>,
        int_num: usize,
        cfg: &VgicGlobal,
        emu_dev_irqs: Vec<usize>,
    ) -> (r: Result<Vm, VgicError>)
        requires
            phys_ids@.len() >= 1,
            GIC_PRIVINT_NUM <= int_num <= GIC_INT_MAX,
            phys_ids@.len() <= cfg.max_gic_vcpus as usize && phys_ids@.len() <= GIC_CPU_MAX
                ==> forall|i: int|
                0 <= i < phys_ids@.len() ==> (#[trigger] phys_ids@[i]) < GIC_CPU_MAX,
            phys_ids@.len() <= cfg.max_gic_vcpus as usize && phys_ids@.len() <= GIC_CPU_MAX
                ==> forall|i: int, j: int|
                0 <= i < phys_ids@.len() && 0 <= j < phys_ids@.len() && i != j
                    ==> phys_ids@[i] != phys_ids@[j],
        ensures
            (phys_ids@.len() > cfg.max_gic_vcpus as usize || phys_ids@.len() > GIC_CPU_MAX)
                <==> r == Err::<Vm, VgicError>(VgicError::CapacityExceeded),
            phys_ids@.len() <= cfg.max_gic_vcpus as usize && phys_ids@.len() <= GIC_CPU_MAX
                ==> r is Ok,
            r is Ok ==> {
                let vm = r.unwrap();
                &&& vm.wf()
                &&& vm.id == id
                &&& vm.spec_cpu_num() == phys_ids@.len()
                &&& forall|i: int|
                    0 <= i < phys_ids@.len() ==> (#[trigger] vm.vcpu_list@[i]) == (Vcpu {
                        id: i as usize,
                        phys_id: phys_ids@[i],
                        vm_id: id,
                    })
                &&& vm.vgic.int_num == int_num
                &&& vm.vgic.typer == cfg.typer
                &&& vm.vgic.iidr == cfg.iidr
                &&& vm.vgic.enabled == false
                &&& forall|c: int, i: int|
                    0 <= c < phys_ids@.len() && 0 <= i < GIC_PRIVINT_NUM ==> vm.vgic.priv_at(c, i)
                        == crate::vgic::default_int_spec()
                &&& forall|i: int|
                    GIC_PRIVINT_NUM <= i < int_num ==> vm.vgic.shared_at(i)
                        == crate::vgic::default_int_spec()
                &&& vm.emu_dev_irqs@ == emu_dev_irqs@
            },
    {
        let nvcpus = phys_ids.len();
        if nvcpus > cfg.max_gic_vcpus as usize || nvcpus > GIC_CPU_MAX {
            return Err(VgicError::CapacityExceeded);
        }
        let mut vcpu_list: Vec<Vcpu> = Vec::new();
        let mut i: usize = 0;
        while i < nvcpus
            invariant
                i <= nvcpus,
                nvcpus == phys_ids@.len(),
                vcpu_list@.len() == i,
                forall|j: int|
                    0 <= j < i ==> (#[trigger] vcpu_list@[j]) == (Vcpu {
                        id: j as usize,
                        phys_id: phys_ids@[j],
                        vm_id: id,
                    }),
            decreases nvcpus - i,
        {
            vcpu_list.push(Vcpu { id: i, phys_id: phys_ids[i], vm_id: id });
            i += 1;
        }
        let vgic = Vgic::new(nvcpus, int_num, cfg.typer, cfg.iidr);
        Ok(Vm { id, vcpu_list, vgic, emu_dev_irqs })
    }

    /// The VM's virtual distributor state.
    pub fn vgic(&self) -> (r: &Vgic)
        ensures
            r == &self.vgic,
    {
        &self.vgic
    }

    /// Whether the controller holds interrupt `int_id` pending for this
    /// VM: for a private number, pending in any vCPU's bank; for a
    /// shared number, pending in the VM's shared record. Identifiers
    /// outside the addressable space are never pending.
    pub fn has_interrupt(&self, int_id: usize) -> (r: bool)
        requires
            self.wf(),
        ensures
            r == self.has_interrupt_spec(int_id),
    {
        if int_id >= self.vgic.int_num {
            return false;
        }
        if int_id < GIC_PRIVINT_NUM {
            let n = self.vcpu_list.len();
            let mut c: usize = 0;
            while c < n
                invariant
                    self.wf(),
                    c <= n,
                    n == self.spec_cpu_num(),
                    int_id < GIC_PRIVINT_NUM,
                    int_id < self.vgic.int_num,
                    forall|j: int|
                        0 <= j < c ==> !pend_bit(
                            #[trigger] self.vgic.priv_at(j, int_id as int).state,
                        ),
                decreases n - c,
            {
                let s = self.vgic.get_priv(c, int_id).state;
                if matches!(s, crate::state::IrqState::IrqSPend)
                    || matches!(s, crate::state::IrqState::IrqSPendActive) {
                    return true;
                }
                c += 1;
            }
            false
        } else {
            let rec = self.vgic.get_shared(int_id);
            matches!(rec.state, crate::state::IrqState::IrqSPend)
                || matches!(rec.state, crate::state::IrqState::IrqSPendActive)
        }
    }

    /// Whether interrupt `int_id` is pending for this VM.
    pub open spec fn has_interrupt_spec(self, int_id: usize) -> bool {
        if int_id >= self.vgic.int_num {
            false
        } else if int_id < GIC_PRIVINT_NUM {
            exists|c: int|
                0 <= c < self.spec_cpu_num() && pend_bit(
                    #[trigger] self.vgic.priv_at(c, int_id as int).state,
                )
        } else {
            pend_bit(self.vgic.shared_at(int_id as int).state)
        }
    }

    /// Whether interrupt `int_id` is sourced by one of the VM's emulated
    /// devices.
    pub fn emu_has_interrupt(&self, int_id: usize) -> (r: bool)
        ensures
            r == self.emu_dev_irqs@.contains(int_id),
    {
        let n = self.emu_dev_irqs.len();
        let mut k: usize = 0;
        while k < n
            invariant
                k <= n,
                n == self.emu_dev_irqs@.len(),
                forall|j: int| 0 <= j < k ==> self.emu_dev_irqs@[j] != int_id,
            decreases n - k,
        {
            if self.emu_dev_irqs[k] == int_id {
                return true;
            }
            k += 1;
        }
        false
    }

    /// The VM's identifier.
    pub fn id(&self) -> (r: usize)
        ensures
            r == self.id,
    {
        self.id
    }

    /// The vCPU with the given identifier, if it is in range.
    pub fn vcpu(&self, id: usize) -> (r: Option<Vcpu>)
        ensures
            r == if (id as int) < self.spec_cpu_num() {
                Some(self.vcpu_list@[id as int])
            } else {
                None::<Vcpu>
            },
    {
        if id < self.vcpu_list.len() {
            Some(self.vcpu_list[id])
        } else {
            None
        }
    }

    /// Number of virtual CPUs of this VM.
    pub fn cpu_num(&self) -> (r: usize)
        ensures
            r == self.spec_cpu_num(),
    {
        self.vcpu_list.len()
    }

    /// The VM's vCPU list, indexed by vCPU identifier.
    pub fn vcpu_list(&self) -> (r: &[Vcpu])
        ensures
            r@ == self.vcpu_list@,
    {
        self.vcpu_list.as_slice()
    }

    /// The physical core the given vCPU is affined to; `VcpuNotFound`
    /// when the identifier is out of range for this VM.
    pub fn vcpuid_to_pcpuid(&self, vcpuid: usize) -> (r: Result<usize, VgicError>)
        ensures
            r == match self.vcpu_to_pcpu_spec(vcpuid) {
                Some(p) => Ok::<usize, VgicError>(p),
                None => Err::<usize, VgicError>(VgicError::VcpuNotFound),
            },
    {
        if vcpuid < self.vcpu_list.len() {
            Ok(self.vcpu_list[vcpuid].phys_id)
        } else {
            Err(VgicError::VcpuNotFound)
        }
    }

    /// The vCPU of this VM affined to the given physical core, found by
    /// linear scan; `PcpuNotFound` when no vCPU is affined there.
    pub fn pcpuid_to_vcpuid(&self, pcpuid: usize) -> (r: Result<usize, VgicError>)
        requires
            self.aff_wf(),
        ensures
            r == match self.pcpu_to_vcpu_spec(pcpuid) {
                Some(v) => Ok::<usize, VgicError>(v),
                None => Err::<usize, VgicError>(VgicError::PcpuNotFound),
            },
    {
        let n = self.vcpu_list.len();
        let mut i: usize = 0;
        while i < n
            invariant
                n == self.spec_cpu_num(),
                i <= n,
                self.aff_wf(),
                forall|j: int| 0 <= j < i ==> (#[trigger] self.vcpu_list@[j]).phys_id != pcpuid,
            decreases n - i,
        {
            if self.vcpu_list[i].phys_id == pcpuid {
                proof {
                    let w = choose|v: int|
                        0 <= v < self.spec_cpu_num()
                            && (#[trigger] self.vcpu_list@[v]).phys_id == pcpuid;
                    assert(self.vcpu_list@[i as int].phys_id == pcpuid);
                    assert(w == i as int);
                }
                return Ok(self.vcpu_list[i].id);
            }
            i += 1;
        }
        Err(VgicError::PcpuNotFound)
    }
    /// The physical-core bitmask obtained from the low `n` bits of a
    /// vCPU bitmask: each set bit at a mapped vCPU index contributes the
    /// bit of its physical core; unmapped indices contribute nothing.
    pub open spec fn vcpu_to_pcpu_mask_spec(self, mask: usize, n: nat) -> usize
        decreases n,
    {
        if n == 0 {
            0usize
        } else {
            let i = (n - 1) as usize;
            if nth_bit(mask, i) && self.vcpu_to_pcpu_spec(i) is Some {
                self.vcpu_to_pcpu_mask_spec(mask, (n - 1) as nat)
                    | (1usize << self.vcpu_to_pcpu_spec(i).unwrap())
            } else {
                self.vcpu_to_pcpu_mask_spec(mask, (n - 1) as nat)
            }
        }
    }

    /// The vCPU bitmask obtained from the low `n` bits of a
    /// physical-core bitmask: each set bit at a core with an affined
    /// vCPU of this VM contributes that vCPU's bit; cores with none
    /// contribute nothing.
    pub open spec fn pcpu_to_vcpu_mask_spec(self, mask: usize, n: nat) -> usize
        decreases n,
    {
        if n == 0 {
            0usize
        } else {
            let i = (n - 1) as usize;
            if nth_bit(mask, i) && self.pcpu_to_vcpu_spec(i) is Some {
                self.pcpu_to_vcpu_mask_spec(mask, (n - 1) as nat)
                    | (1usize << self.pcpu_to_vcpu_spec(i).unwrap())
            } else {
                self.pcpu_to_vcpu_mask_spec(mask, (n - 1) as nat)
            }
        }
    }

    /// Translates a vCPU bitmask of `len` bits into a physical-core
    /// bitmask. A bit whose vCPU index has no affinity record is dropped
    /// silently; the translation itself never fails.
    pub fn vcpu_to_pcpu_mask(&self, mask: usize, len: usize) -> (r: usize)
        requires
            self.aff_wf(),
            len <= GIC_CPU_MAX,
        ensures
            r == self.vcpu_to_pcpu_mask_spec(mask, len as nat),
    {
        let mut pmask: usize = 0;
        let mut i: usize = 0;
        while i < len
            invariant
                self.aff_wf(),
                i <= len,
                len <= GIC_CPU_MAX,
                pmask == self.vcpu_to_pcpu_mask_spec(mask, i as nat),
            decreases len - i,
        {
            let shift = self.vcpuid_to_pcpuid(i);
            if mask & (1usize << i) != 0 && shift.is_ok() {
                pmask |= 1usize << shift.unwrap();
            }
            i += 1;
        }
        pmask
    }

    /// Translates a physical-core bitmask of `len` bits into a vCPU
    /// bitmask. A bit whose core has no vCPU of this VM affined to it is
    /// dropped silently; the translation itself never fails.
    pub fn pcpu_to_vcpu_mask(&self, mask: usize, len: usize) -> (r: usize)
        requires
            self.aff_wf(),
            len <= GIC_CPU_MAX,
        ensures
            r == self.pcpu_to_vcpu_mask_spec(mask, len as nat),
    {
        let mut pmask: usize = 0;
        let mut i: usize = 0;
        while i < len
            invariant
                self.aff_wf(),
                i <= len,
                len <= GIC_CPU_MAX,
                pmask == self.pcpu_to_vcpu_mask_spec(mask, i as nat),
            decreases len - i,
        {
            let shift = self.pcpuid_to_vcpuid(i);
            if mask & (1usize << i) != 0 && shift.is_ok() {
                pmask |= 1usize << shift.unwrap();
            }
            i += 1;
        }
        pmask
    }
}

/// Law: the reverse translation likewise depends only on the bits at
/// cores with an affined vCPU of the VM; bits at unmapped cores never
/// reach the result.
pub proof fn lemma_reverse_mask_translation_drops_unmapped(vm: Vm, mask1: usize, mask2: usize, n: nat)
    requires
        vm.aff_wf(),
        forall|i: usize|
            i < n && vm.pcpu_to_vcpu_spec(i) is Some ==> nth_bit(mask1, i) == nth_bit(mask2, i),
    ensures
        vm.pcpu_to_vcpu_mask_spec(mask1, n) == vm.pcpu_to_vcpu_mask_spec(mask2, n),
    decreases n,
{
    if n > 0 {
        lemma_reverse_mask_translation_drops_unmapped(vm, mask1, mask2, (n - 1) as nat);
        let i = (n - 1) as usize;
        if vm.pcpu_to_vcpu_spec(i) is Some {
            assert(nth_bit(mask1, i) == nth_bit(mask2, i));
        }
    }
}

/// The core-to-vCPU lookup depends only on the vCPU list: two VM values
/// with the same list resolve every physical core alike.
pub proof fn lemma_pcpu_to_vcpu_congruent(a: Vm, b: Vm, p: usize)
    requires
        a.aff_wf(),
        a.vcpu_list@ == b.vcpu_list@,
    ensures
        a.pcpu_to_vcpu_spec(p) == b.pcpu_to_vcpu_spec(p),
{
    if exists|v: int| 0 <= v < a.spec_cpu_num() && (#[trigger] a.vcpu_list@[v]).phys_id == p {
        let w1 = choose|v: int|
            0 <= v < a.spec_cpu_num() && (#[trigger] a.vcpu_list@[v]).phys_id == p;
        assert(b.vcpu_list@[w1].phys_id == p);
        let w2 = choose|v: int|
            0 <= v < b.spec_cpu_num() && (#[trigger] b.vcpu_list@[v]).phys_id == p;
        assert(a.vcpu_list@[w2].phys_id == p);
        assert(w1 == w2);
    } else {
        assert(forall|v: int|
            0 <= v < b.spec_cpu_num() ==> (#[trigger] b.vcpu_list@[v]).phys_id != p) by {
            assert(forall|v: int|
                0 <= v < a.spec_cpu_num() ==> (#[trigger] a.vcpu_list@[v]).phys_id != p);
        }
    }
}

/// Law: mask translation depends only on the bits at mapped vCPU
/// indices; two masks that agree there translate to the same result,
/// whatever their bits at unmapped indices hold.
pub proof fn lemma_mask_translation_drops_unmapped(vm: Vm, mask1: usize, mask2: usize, n: nat)
    requires
        vm.aff_wf(),
        forall|i: usize|
            i < n && (i as int) < vm.spec_cpu_num() ==> nth_bit(mask1, i) == nth_bit(mask2, i),
    ensures
        vm.vcpu_to_pcpu_mask_spec(mask1, n) == vm.vcpu_to_pcpu_mask_spec(mask2, n),
    decreases n,
{
    if n > 0 {
        lemma_mask_translation_drops_unmapped(vm, mask1, mask2, (n - 1) as nat);
        let i = (n - 1) as usize;
        if (i as int) < vm.spec_cpu_num() {
            assert(nth_bit(mask1, i) == nth_bit(mask2, i));
        }
    }
}

/// Law: for every vCPU with a valid affinity assignment, translating to
/// its physical core and back yields the same vCPU identifier.
pub proof fn lemma_affinity_round_trip(vm: Vm, vcpu_id: usize)
    requires
        vm.aff_wf(),
        (vcpu_id as int) < vm.spec_cpu_num(),
    ensures
        vm.vcpu_to_pcpu_spec(vcpu_id) is Some,
        vm.pcpu_to_vcpu_spec(vm.vcpu_to_pcpu_spec(vcpu_id).unwrap()) == Some(vcpu_id),
{
    let p = vm.vcpu_list@[vcpu_id as int].phys_id;
    assert(vm.vcpu_list@[vcpu_id as int].phys_id == p);
    let w = choose|v: int|
        0 <= v < vm.spec_cpu_num() && (#[trigger] vm.vcpu_list@[v]).phys_id == p;
    assert(w == vcpu_id as int);
}

} // verus!
