use vgic::VgicError;
use vgic::config::VgicGlobal;
use vgic::cpu::{active_vcpu_id, active_vm, active_vm_id, active_vm_ncpu, current_cpu, VcpuArray};
use vgic::state::{gic_is_priv, IrqState};
use vgic::vm::{Vcpu, Vm};

fn test_cfg() -> VgicGlobal {
    VgicGlobal::new(4, 25, 32, 0x37, 0x123)
}

fn two_vcpu_vm() -> Vm {
    Vm::new(7, &vec![3, 5], 512, &test_cfg(), vec![27, 33]).unwrap()
}

#[test]
fn state_codec_round_trip() {
    for n in 0..=3usize {
        let s = IrqState::num_to_state(n).unwrap();
        assert_eq!(s.to_num(), n);
    }
}

#[test]
fn state_decode_out_of_range() {
    assert_eq!(IrqState::num_to_state(4), Err(VgicError::InvalidState));
    assert_eq!(IrqState::num_to_state(5), Err(VgicError::InvalidState));
    assert_eq!(IrqState::num_to_state(usize::MAX), Err(VgicError::InvalidState));
}

#[test]
fn set_pend_true_twice_is_idempotent() {
    for n in 0..=3usize {
        let s = IrqState::num_to_state(n).unwrap();
        let once = s.set_pend(true);
        let twice = once.set_pend(true);
        assert_eq!(once, twice);
    }
}

#[test]
fn state_transitions_basic() {
    assert_eq!(IrqState::IrqSInactive.set_pend(true), IrqState::IrqSPend);
    assert_eq!(IrqState::IrqSPend.set_active(true), IrqState::IrqSPendActive);
    assert_eq!(IrqState::IrqSPendActive.set_pend(false), IrqState::IrqSActive);
    assert_eq!(IrqState::IrqSActive.set_active(false), IrqState::IrqSInactive);
    // direct activation without pending, used by inject paths
    assert_eq!(IrqState::IrqSInactive.set_active(true), IrqState::IrqSActive);
    // no-ops
    assert_eq!(IrqState::IrqSPend.set_pend(true), IrqState::IrqSPend);
    assert_eq!(IrqState::IrqSInactive.set_pend(false), IrqState::IrqSInactive);
}

#[test]
fn private_threshold() {
    assert!(gic_is_priv(0));
    assert!(gic_is_priv(10));
    assert!(gic_is_priv(31));
    assert!(!gic_is_priv(32));
    assert!(!gic_is_priv(40));
}

#[test]
fn global_config_fields_and_capacity() {
    let cfg = test_cfg();
    assert_eq!(cfg.nr_lr, 4);
    assert_eq!(cfg.mainten_irq, 25);
    assert_eq!(cfg.max_gic_vcpus, 32);
    assert_eq!(cfg.typer, 0x37);
    assert_eq!(cfg.iidr, 0x123);
    assert_eq!(cfg.check_vcpu_capacity(32), Ok(()));
    assert_eq!(cfg.check_vcpu_capacity(33), Err(VgicError::CapacityExceeded));
}

#[test]
fn vm_creation_over_capacity_fails() {
    let cfg = test_cfg();
    let phys: Vec<usize> = (0..40).collect();
    let r = Vm::new(1, &phys, 512, &cfg, Vec::new());
    assert!(matches!(r, Err(VgicError::CapacityExceeded)));
}

#[test]
fn vm_creation_at_capacity_succeeds() {
    let cfg = test_cfg();
    let phys: Vec<usize> = (0..32).collect();
    let vm = Vm::new(1, &phys, 512, &cfg, Vec::new()).unwrap();
    assert_eq!(vm.cpu_num(), 32);
    assert_eq!(vm.vcpuid_to_pcpuid(31), Ok(31));
}

#[test]
fn affinity_lookups_both_ways() {
    let vm = two_vcpu_vm();
    assert_eq!(vm.vcpuid_to_pcpuid(0), Ok(3));
    assert_eq!(vm.vcpuid_to_pcpuid(1), Ok(5));
    assert_eq!(vm.vcpuid_to_pcpuid(2), Err(VgicError::VcpuNotFound));
    assert_eq!(vm.pcpuid_to_vcpuid(3), Ok(0));
    assert_eq!(vm.pcpuid_to_vcpuid(5), Ok(1));
    assert_eq!(vm.pcpuid_to_vcpuid(4), Err(VgicError::PcpuNotFound));
}

#[test]
fn affinity_round_trip_per_vcpu() {
    let vm = two_vcpu_vm();
    for id in 0..vm.cpu_num() {
        let p = vm.vcpuid_to_pcpuid(id).unwrap();
        assert_eq!(vm.pcpuid_to_vcpuid(p), Ok(id));
    }
}

#[test]
fn vcpu_mask_to_pcpu_mask_scenario() {
    let vm = two_vcpu_vm();
    assert_eq!(vm.vcpu_to_pcpu_mask(0b11, 2), 0b101000);
}

#[test]
fn pcpu_mask_to_vcpu_mask_scenario() {
    let vm = two_vcpu_vm();
    assert_eq!(vm.pcpu_to_vcpu_mask(0b101000, 6), 0b11);
}

#[test]
fn mask_translation_drops_unmapped_bits() {
    let vm = two_vcpu_vm();
    // bit 2 names a vCPU the VM does not have: dropped, no error
    assert_eq!(vm.vcpu_to_pcpu_mask(0b111, 3), 0b101000);
    // wider lengths with only unmapped bits set translate to nothing
    assert_eq!(vm.vcpu_to_pcpu_mask(0b1111100, 7), 0);
    // cores without a vCPU of this VM contribute nothing
    assert_eq!(vm.pcpu_to_vcpu_mask(0b010111, 6), 0);
}

#[test]
fn vm_accessors() {
    let vm = two_vcpu_vm();
    assert_eq!(vm.id(), 7);
    assert_eq!(vm.cpu_num(), 2);
    let v0 = vm.vcpu(0).unwrap();
    assert_eq!(v0.id(), 0);
    assert_eq!(v0.vm_id(), 7);
    assert_eq!(v0.phys_id(), 3);
    assert!(vm.vcpu(2).is_none());
    assert_eq!(vm.vcpu_list().len(), 2);
    assert_eq!(vm.vcpu_list()[1].phys_id(), 5);
}

#[test]
fn emu_device_interrupt_lines() {
    let vm = two_vcpu_vm();
    assert!(vm.emu_has_interrupt(27));
    assert!(vm.emu_has_interrupt(33));
    assert!(!vm.emu_has_interrupt(40));
}

#[test]
fn pcpu_register_file() {
    let mut cpu = current_cpu(0);
    assert_eq!(cpu.id(), 0);
    assert!(cpu.active_vcpu().is_none());
    assert_eq!(cpu.get_gpr(0), 0);
    cpu.set_gpr(3, 77);
    assert_eq!(cpu.get_gpr(3), 77);
    cpu.set_gpr(100, 5);
    assert_eq!(cpu.get_gpr(100), 0);
}

#[test]
fn vcpu_array_slots() {
    let arr = VcpuArray::new();
    assert!(arr.pop_vcpu_through_vmid(0).is_none());
    assert!(arr.pop_vcpu_through_vmid(63).is_none());
    assert!(arr.pop_vcpu_through_vmid(64).is_none());
}

#[test]
fn active_helpers() {
    let vm = two_vcpu_vm();
    let mut cpu = current_cpu(3);
    assert_eq!(active_vm_id(&cpu), None);
    assert_eq!(active_vcpu_id(&cpu), None);
    cpu.active_vcpu = Some(Vcpu { id: 0, phys_id: 3, vm_id: 7 });
    assert_eq!(active_vm_id(&cpu), Some(7));
    assert_eq!(active_vcpu_id(&cpu), Some(0));
    let vms = vec![vm];
    let found = active_vm(&cpu, &vms).unwrap();
    assert_eq!(found.id(), 7);
    assert_eq!(active_vm_ncpu(&cpu, &vms), Some(2));
}
