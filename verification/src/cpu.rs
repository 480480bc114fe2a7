//! Per-physical-core execution context: the arena of vCPUs hosted on a
//! core (one slot per VM), the core's guest register file, and helpers
//! naming the VM and vCPU currently active on a core.

use vstd::prelude::*;
use crate::vm::Vcpu;
use crate::vm::Vm;

verus! {

/// Number of VM slots in a core's vCPU arena.
pub const VCPU_ARRAY_SLOTS: usize = 64;

/// Number of guest general-purpose registers saved per core.
pub const GPR_NUM: usize = 32;

/// Arena of the vCPUs hosted on one physical core, indexed by VM
/// identifier, with an explicit occupied slot per entry and a count of
/// occupied slots.
pub struct VcpuArray {
    /// One slot per VM identifier; `Some` where a vCPU of that VM is hosted here.
    pub array: Vec<Option<Vcpu>>,
    /// Number of occupied slots.
    pub len: usize,
}

impl VcpuArray {
    /// Number of occupied slots in a prefix of the arena.
    pub open spec fn occupied_upto(s: Seq<Option<Vcpu>>, n: int) -> int
        decreases n,
    {
        if n <= 0 {
            0
        } else if s[n - 1] is Some {
            Self::occupied_upto(s, n - 1) + 1
        } else {
            Self::occupied_upto(s, n - 1)
        }
    }

    /// Well-formedness: the arena has exactly one slot per VM identifier
    /// and the count equals the number of occupied slots.
    pub open spec fn wf(self) -> bool {
        &&& self.array@.len() == VCPU_ARRAY_SLOTS
        &&& self.len == Self::occupied_upto(self.array@, VCPU_ARRAY_SLOTS as int)
    }

    /// Builds an empty arena: every slot unoccupied.
    pub fn new() -> (r: VcpuArray)
        ensures
            r.wf(),
            r.len == 0,
            forall|i: int| 0 <= i < VCPU_ARRAY_SLOTS ==> r.array@[i] is None,
    {
        let mut array: Vec<Option<Vcpu>> = Vec::new();
        let mut i: usize = 0;
        while i < VCPU_ARRAY_SLOTS
            invariant
                i <= VCPU_ARRAY_SLOTS,
                array@.len() == i,
                forall|j: int| 0 <= j < i ==> array@[j] is None,
            decreases VCPU_ARRAY_SLOTS - i,
        {
            array.push(None);
            i += 1;
        }
        proof {
            Self::lemma_all_none_occupied(array@, VCPU_ARRAY_SLOTS as int);
        }
        VcpuArray { array, len: 0 }
    }

    /// An arena prefix holding no occupied slot counts zero.
    proof fn lemma_all_none_occupied(s: Seq<Option<Vcpu>>, n: int)
        requires
            n <= s.len(),
            forall|j: int| 0 <= j < n ==> s[j] is None,
        ensures
            Self::occupied_upto(s, n) == 0,
        decreases n,
    {
        if n > 0 {
            Self::lemma_all_none_occupied(s, n - 1);
        }
    }

    /// The vCPU of the given VM hosted on this core, if any; out-of-range
    /// VM identifiers yield nothing.
    pub fn pop_vcpu_through_vmid(&self, vm_id: usize) -> (r: Option<&Vcpu>)
        ensures
            r == if (vm_id as int) < self.array@.len() && self.array@[vm_id as int] is Some {
                Some(&self.array@[vm_id as int].unwrap())
            } else {
                None::<&Vcpu>
            },
    {
        if vm_id < self.array.len() {
            match &self.array[vm_id] {
                Some(vcpu) => Some(vcpu),
                None => None,
            }
        } else {
            None
        }
    }
}

/// One physical core's execution context: its identifier, the vCPU
/// currently scheduled there (at most one at any instant), the vCPUs it
/// hosts, and the trapping guest's saved general-purpose registers.
pub struct Pcpu {
    /// Physical core identifier.
    pub id: usize,
    /// The vCPU currently active on this core, if any.
    pub active_vcpu: Option<Vcpu>,
    /// The vCPUs hosted on this core, one slot per VM.
    pub vcpu_array: VcpuArray,
    /// Saved guest general-purpose registers.
    pub gpr: Vec<usize>,
}

impl Pcpu {
    /// The core's identifier.
    pub fn id(&self) -> (r: usize)
        ensures
            r == self.id,
    {
        self.id
    }

    /// Reads a saved guest register; indices outside the register file
    /// read as zero.
    pub fn get_gpr(&self, idx: usize) -> (r: usize)
        ensures
            r == if (idx as int) < self.gpr@.len() {
                self.gpr@[idx as int]
            } else {
                0usize
            },
    {
        if idx < self.gpr.len() {
            self.gpr[idx]
        } else {
            0
        }
    }

    /// Writes a saved guest register; writes outside the register file
    /// are ignored.
    pub fn set_gpr(&mut self, idx: usize, val: usize)
        ensures
            final(self).id == old(self).id,
            final(self).active_vcpu == old(self).active_vcpu,
            final(self).vcpu_array.array@ == old(self).vcpu_array.array@,
            final(self).vcpu_array.len == old(self).vcpu_array.len,
            (idx as int) < old(self).gpr@.len() ==> final(self).gpr@ == old(
                self,
            ).gpr@.update(idx as int, val),
            (idx as int) >= old(self).gpr@.len() ==> final(self).gpr@ == old(self).gpr@,
    {
        if idx < self.gpr.len() {
            self.gpr.set(idx, val);
        }
    }

    /// The vCPU currently active on this core, if any.
    pub fn active_vcpu(&self) -> (r: Option<Vcpu>)
        ensures
            r == self.active_vcpu,
    {
        self.active_vcpu
    }
}

/// Builds a core's boot-time context: no active vCPU, an empty arena,
/// and a zeroed guest register file.
pub fn current_cpu(id: usize) -> (r: Pcpu)
    ensures
        r.id == id,
        r.active_vcpu is None,
        r.vcpu_array.wf(),
        r.gpr@.len() == GPR_NUM,
        forall|i: int| 0 <= i < GPR_NUM ==> r.gpr@[i] == 0usize,
{
    let mut gpr: Vec<usize> = Vec::new();
    let mut i: usize = 0;
    while i < GPR_NUM
        invariant
            i <= GPR_NUM,
            gpr@.len() == i,
            forall|j: int| 0 <= j < i ==> gpr@[j] == 0usize,
        decreases GPR_NUM - i,
    {
        gpr.push(0);
        i += 1;
    }
    Pcpu { id, active_vcpu: None, vcpu_array: VcpuArray::new(), gpr }
}

/// Identifier of the VM whose vCPU is active on the given core, if any.
pub fn active_vm_id(cpu: &Pcpu) -> (r: Option<usize>)
    ensures
        r == match cpu.active_vcpu {
            Some(v) => Some(v.vm_id),
            None => None::<usize>,
        },
{
    match &cpu.active_vcpu {
        Some(v) => Some(v.vm_id),
        None => None,
    }
}

/// Identifier of the vCPU active on the given core, if any.
pub fn active_vcpu_id(cpu: &Pcpu) -> (r: Option<usize>)
    ensures
        r == match cpu.active_vcpu {
            Some(v) => Some(v.id),
            None => None::<usize>,
        },
{
    match &cpu.active_vcpu {
        Some(v) => Some(v.id),
        None => None,
    }
}

/// The VM whose vCPU is active on the given core, looked up by identity
/// in the given VM list, if any is active and listed.
pub fn active_vm<'a>(cpu: &Pcpu, vms: &'a Vec<Vm>) -> (r: Option<&'a Vm>)
    ensures
        match r {
            Some(vm) => {
                &&& cpu.active_vcpu is Some
                &&& exists|k: int| 0 <= k < vms@.len() && (#[trigger] vms@[k]) == *vm
                &&& vm.id == cpu.active_vcpu.unwrap().vm_id
            },
            None => cpu.active_vcpu is Some ==> forall|k: int|
                0 <= k < vms@.len() ==> (#[trigger] vms@[k]).id != cpu.active_vcpu.unwrap().vm_id,
        },
{
    let target = match &cpu.active_vcpu {
        Some(v) => v.vm_id,
        None => {
            return None;
        },
    };
    let n = vms.len();
    let mut k: usize = 0;
    while k < n
        invariant
            n == vms@.len(),
            k <= n,
            cpu.active_vcpu is Some,
            target == cpu.active_vcpu.unwrap().vm_id,
            forall|j: int| 0 <= j < k ==> (#[trigger] vms@[j]).id != target,
        decreases n - k,
    {
        if vms[k].id == target {
            return Some(&vms[k]);
        }
        k += 1;
    }
    None
}

/// Number of vCPUs of the VM active on the given core, if one is active
/// and listed.
pub fn active_vm_ncpu(cpu: &Pcpu, vms: &Vec<Vm>) -> (r: Option<usize>)
    ensures
        cpu.active_vcpu is None ==> r is None,
        cpu.active_vcpu is Some && r is None ==> forall|k: int|
            0 <= k < vms@.len() ==> (#[trigger] vms@[k]).id != cpu.active_vcpu.unwrap().vm_id,
        r is Some ==> cpu.active_vcpu is Some && exists|k: int|
            0 <= k < vms@.len() && (#[trigger] vms@[k]).id == cpu.active_vcpu.unwrap().vm_id
                && vms@[k].spec_cpu_num() == r.unwrap(),
{
    match active_vm(cpu, vms) {
        Some(vm) => Some(vm.cpu_num()),
        None => None,
    }
}

} // verus!
