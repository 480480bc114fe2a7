use vgic::config::VgicGlobal;
use vgic::emu::{
    decode_gicd_offset, EmuContext, EmuDev, EmuDeviceType, GicdReg, GICD_BASE, GICD_SIZE,
};
use vgic::ipi::{InitcEvent, IpiInitcMessage, IpiInnerMsg, IpiMessage, IpiType};
use vgic::state::IrqState;
use vgic::vm::Vm;

fn test_cfg() -> VgicGlobal {
    VgicGlobal::new(4, 25, 32, 0x37, 0x123)
}

fn vm_on_cores(phys: Vec<usize>) -> Vm {
    Vm::new(7, &phys, 512, &test_cfg(), Vec::new()).unwrap()
}

fn write_ctx(address: usize, width: usize) -> EmuContext {
    EmuContext { address, width, write: true, sign_ext: false, reg: 0, reg_width: 8 }
}

fn read_ctx(address: usize, width: usize) -> EmuContext {
    EmuContext { address, width, write: false, sign_ext: false, reg: 0, reg_width: 8 }
}

#[test]
fn decode_register_map() {
    assert_eq!(decode_gicd_offset(0x000), GicdReg::Ctlr);
    assert_eq!(decode_gicd_offset(0x004), GicdReg::Typer);
    assert_eq!(decode_gicd_offset(0x008), GicdReg::Iidr);
    assert_eq!(decode_gicd_offset(0x100), GicdReg::IsEnabler(0));
    assert_eq!(decode_gicd_offset(0x104), GicdReg::IsEnabler(32));
    assert_eq!(decode_gicd_offset(0x180), GicdReg::IcEnabler(0));
    assert_eq!(decode_gicd_offset(0x200), GicdReg::IsPendr(0));
    assert_eq!(decode_gicd_offset(0x204), GicdReg::IsPendr(32));
    assert_eq!(decode_gicd_offset(0x280), GicdReg::IcPendr(0));
    assert_eq!(decode_gicd_offset(0x300), GicdReg::IsActiver(0));
    assert_eq!(decode_gicd_offset(0x380), GicdReg::IcActiver(0));
    assert_eq!(decode_gicd_offset(0x400), GicdReg::Priorityr(0));
    assert_eq!(decode_gicd_offset(0x428), GicdReg::Priorityr(0x28));
    assert_eq!(decode_gicd_offset(0x800), GicdReg::Targetsr(0));
    assert_eq!(decode_gicd_offset(0xc00), GicdReg::Icfgr(0));
    assert_eq!(decode_gicd_offset(0xc08), GicdReg::Icfgr(32));
    assert_eq!(decode_gicd_offset(0x202), GicdReg::Unsupported);
    assert_eq!(decode_gicd_offset(0xc82), GicdReg::Unsupported);
    assert_eq!(decode_gicd_offset(0xd00), GicdReg::Unsupported);
}

#[test]
fn private_interrupt_state_scenario() {
    // interrupt 10 is private (threshold 32); vCPU 0 runs on core 3
    let mut vm = vm_on_cores(vec![3, 5]);
    assert_eq!(vm.vgic().get_priv(0, 10).state, IrqState::IrqSInactive);

    let r = vm.route_event(3, InitcEvent::VgicdSetPend, 10, 1);
    assert!(r.is_none());
    assert_eq!(vm.vgic().get_priv(0, 10).state, IrqState::IrqSPend);

    let r = vm.route_event(3, InitcEvent::VgicdSetAct, 10, 1);
    assert!(r.is_none());
    assert_eq!(vm.vgic().get_priv(0, 10).state, IrqState::IrqSPendActive);

    let r = vm.route_event(3, InitcEvent::VgicdSetPend, 10, 0);
    assert!(r.is_none());
    assert_eq!(vm.vgic().get_priv(0, 10).state, IrqState::IrqSActive);

    // the other vCPU's bank was never touched
    assert_eq!(vm.vgic().get_priv(1, 10).state, IrqState::IrqSInactive);
}

#[test]
fn shared_interrupt_remote_scenario() {
    // interrupt 40 is shared; vCPU 0 on core 0, vCPU 1 on core 1
    let mut vm = vm_on_cores(vec![0, 1]);

    // move ownership of interrupt 40 to vCPU 1 (core 1); the default
    // owner is vCPU 0 on core 0, so this write applies locally there
    let r = vm.route_event(0, InitcEvent::VgicdSetTrgt, 40, 1);
    assert!(r.is_none());
    assert_eq!(vm.vgic().get_shared(40).targets, 1);

    // dispatch on core 0 must not mutate a record owned by core 1:
    // it builds the message for core 1 instead
    let r = vm.route_event(0, InitcEvent::VgicdSetPend, 40, 1);
    let cm = r.unwrap();
    assert_eq!(cm.target_pcpu, 1);
    assert_eq!(cm.msg.event, InitcEvent::VgicdSetPend);
    assert_eq!(cm.msg.vm_id, 7);
    assert_eq!(cm.msg.int_id, 40);
    assert_eq!(cm.msg.val, 1);
    assert_eq!(vm.vgic().get_shared(40).state, IrqState::IrqSInactive);

    // core 1 applies the message on receipt
    let r = vm.handle_initc_message(1, &cm.msg);
    assert!(r.is_none());
    assert_eq!(vm.vgic().get_shared(40).state, IrqState::IrqSPend);
}

#[test]
fn message_for_another_vm_is_ignored() {
    let mut vm = vm_on_cores(vec![0, 1]);
    let msg = IpiInitcMessage { event: InitcEvent::VgicdSetPend, vm_id: 99, int_id: 40, val: 1 };
    let r = vm.handle_initc_message(0, &msg);
    assert!(r.is_none());
    assert_eq!(vm.vgic().get_shared(40).state, IrqState::IrqSInactive);
}

#[test]
fn route_event_out_of_range_is_noop() {
    let mut vm = vm_on_cores(vec![0]);
    let r = vm.route_event(0, InitcEvent::VgicdSetPend, 5000, 1);
    assert!(r.is_none());
}

#[test]
fn route_event_without_local_vcpu_is_noop() {
    let mut vm = vm_on_cores(vec![3, 5]);
    // no vCPU of this VM runs on core 9: the private access drops
    let r = vm.route_event(9, InitcEvent::VgicdSetPend, 10, 1);
    assert!(r.is_none());
    assert_eq!(vm.vgic().get_priv(0, 10).state, IrqState::IrqSInactive);
    assert_eq!(vm.vgic().get_priv(1, 10).state, IrqState::IrqSInactive);
}

#[test]
fn read_identification_registers() {
    let mut vm = vm_on_cores(vec![0]);
    let r = vm.handle_access(&read_ctx(GICD_BASE + 0x004, 4), 0, 0);
    assert_eq!(r.read_value, Some(0x37));
    assert!(r.sends.is_empty());
    let r = vm.handle_access(&read_ctx(GICD_BASE + 0x008, 4), 0, 0);
    assert_eq!(r.read_value, Some(0x123));
    let r = vm.handle_access(&read_ctx(GICD_BASE, 4), 0, 0);
    assert_eq!(r.read_value, Some(0));
}

#[test]
fn ctlr_write_enables_and_broadcasts() {
    let mut vm = vm_on_cores(vec![0, 1]);
    let r = vm.handle_access(&write_ctx(GICD_BASE, 4), 0, 1);
    assert_eq!(r.read_value, None);
    assert!(vm.vgic().enabled);
    assert_eq!(r.sends.len(), 1);
    assert_eq!(r.sends[0].target_pcpu, 1);
    assert_eq!(r.sends[0].msg.event, InitcEvent::VgicdGichEn);
    assert_eq!(r.sends[0].msg.val, 1);
    // the remote core applies the broadcast on receipt
    let rr = vm.handle_initc_message(1, &r.sends[0].msg);
    assert!(rr.is_none());
    assert!(vm.vgic().enabled);
    // reading the control register now returns the enable bit
    let r = vm.handle_access(&read_ctx(GICD_BASE, 4), 0, 0);
    assert_eq!(r.read_value, Some(1));
}

#[test]
fn pend_register_write_and_read_back() {
    let mut vm = vm_on_cores(vec![3, 5]);
    let bits = (1usize << 10) | (1usize << 12);
    let r = vm.handle_access(&write_ctx(GICD_BASE + 0x200, 4), 3, bits);
    assert_eq!(r.read_value, None);
    assert!(r.sends.is_empty());
    assert_eq!(vm.vgic().get_priv(0, 10).state, IrqState::IrqSPend);
    assert_eq!(vm.vgic().get_priv(0, 12).state, IrqState::IrqSPend);
    assert_eq!(vm.vgic().get_priv(0, 11).state, IrqState::IrqSInactive);
    let r = vm.handle_access(&read_ctx(GICD_BASE + 0x200, 4), 3, 0);
    assert_eq!(r.read_value, Some(bits));
    // the same read from the other vCPU's core sees its own clean bank
    let r = vm.handle_access(&read_ctx(GICD_BASE + 0x200, 4), 5, 0);
    assert_eq!(r.read_value, Some(0));
    // clearing one bit moves that interrupt back
    let r = vm.handle_access(&write_ctx(GICD_BASE + 0x280, 4), 3, 1usize << 10);
    assert!(r.sends.is_empty());
    assert_eq!(vm.vgic().get_priv(0, 10).state, IrqState::IrqSInactive);
    assert_eq!(vm.vgic().get_priv(0, 12).state, IrqState::IrqSPend);
}

#[test]
fn shared_pend_write_forwards_to_owner() {
    let mut vm = vm_on_cores(vec![0, 1]);
    // hand interrupt 40 to vCPU 1 (core 1) through the targets register
    let r = vm.handle_access(&write_ctx(GICD_BASE + 0x828, 1), 0, 1);
    assert!(r.sends.is_empty());
    assert_eq!(vm.vgic().get_shared(40).targets, 1);
    // ISPENDR word 1 covers interrupts 32..64; bit 8 is interrupt 40
    let r = vm.handle_access(&write_ctx(GICD_BASE + 0x204, 4), 0, 1usize << 8);
    assert_eq!(r.sends.len(), 1);
    assert_eq!(r.sends[0].target_pcpu, 1);
    assert_eq!(r.sends[0].msg.int_id, 40);
    assert_eq!(vm.vgic().get_shared(40).state, IrqState::IrqSInactive);
    let rr = vm.handle_initc_message(1, &r.sends[0].msg);
    assert!(rr.is_none());
    assert_eq!(vm.vgic().get_shared(40).state, IrqState::IrqSPend);
}

#[test]
fn priority_register_bytes() {
    let mut vm = vm_on_cores(vec![0]);
    // interrupts 40..44, one priority byte each, all owned locally
    let r = vm.handle_access(&write_ctx(GICD_BASE + 0x428, 4), 0, 0xAABB_CCDD);
    assert!(r.sends.is_empty());
    assert_eq!(vm.vgic().get_shared(40).prio, 0xDD);
    assert_eq!(vm.vgic().get_shared(41).prio, 0xCC);
    assert_eq!(vm.vgic().get_shared(42).prio, 0xBB);
    assert_eq!(vm.vgic().get_shared(43).prio, 0xAA);
    let r = vm.handle_access(&read_ctx(GICD_BASE + 0x428, 4), 0, 0);
    assert_eq!(r.read_value, Some(0xAABB_CCDD));
}

#[test]
fn enable_register_bits() {
    let mut vm = vm_on_cores(vec![3]);
    let r = vm.handle_access(&write_ctx(GICD_BASE + 0x100, 4), 3, 1usize << 9);
    assert!(r.sends.is_empty());
    assert!(vm.vgic().get_priv(0, 9).enabled);
    assert!(!vm.vgic().get_priv(0, 8).enabled);
    let r = vm.handle_access(&read_ctx(GICD_BASE + 0x100, 4), 3, 0);
    assert_eq!(r.read_value, Some(1usize << 9));
    let r = vm.handle_access(&write_ctx(GICD_BASE + 0x180, 4), 3, 1usize << 9);
    assert!(r.sends.is_empty());
    assert!(!vm.vgic().get_priv(0, 9).enabled);
}

#[test]
fn configuration_register_fields() {
    let mut vm = vm_on_cores(vec![0]);
    // ICFGR word 2 covers interrupts 32..48, two bits per interrupt;
    // fields 8 and 9 are interrupts 40 and 41
    let r = vm.handle_access(&write_ctx(GICD_BASE + 0xc08, 4), 0, (2usize << 16) | (1usize << 18));
    assert!(r.sends.is_empty());
    assert_eq!(vm.vgic().get_shared(40).cfg, 2);
    assert_eq!(vm.vgic().get_shared(41).cfg, 1);
    assert_eq!(vm.vgic().get_shared(42).cfg, 0);
    let r = vm.handle_access(&read_ctx(GICD_BASE + 0xc08, 4), 0, 0);
    assert_eq!(r.read_value, Some((2usize << 16) | (1usize << 18)));
}

#[test]
fn unsupported_addresses_are_permissive() {
    let mut vm = vm_on_cores(vec![0]);
    // outside the distributor window
    let r = vm.handle_access(&read_ctx(0x1000, 4), 0, 0);
    assert_eq!(r.read_value, Some(0));
    assert!(r.sends.is_empty());
    let r = vm.handle_access(&write_ctx(0x1000, 4), 0, 0xFFFF);
    assert_eq!(r.read_value, None);
    assert!(r.sends.is_empty());
    // a reserved offset inside the window
    let r = vm.handle_access(&read_ctx(GICD_BASE + 0xc80, 4), 0, 0);
    assert_eq!(r.read_value, Some(0));
    let r = vm.handle_access(&write_ctx(GICD_BASE + 0xc80, 4), 0, 0xFFFF);
    assert_eq!(r.read_value, None);
    assert!(r.sends.is_empty());
}

#[test]
fn controller_pending_lookup() {
    let mut vm = vm_on_cores(vec![3, 5]);
    assert!(!vm.has_interrupt(10));
    assert!(!vm.has_interrupt(40));
    vm.route_event(5, InitcEvent::VgicdSetPend, 10, 1);
    assert!(vm.has_interrupt(10));
    // interrupt 40 defaults to vCPU 0 on core 3
    vm.route_event(3, InitcEvent::VgicdSetPend, 40, 1);
    assert!(vm.has_interrupt(40));
    assert!(!vm.has_interrupt(5000));
}

#[test]
fn injection_stages_pending() {
    let mut vm = vm_on_cores(vec![0]);
    let msg = IpiInitcMessage { event: InitcEvent::Vgicdinject, vm_id: 7, int_id: 40, val: 0 };
    let r = vm.handle_initc_message(0, &msg);
    assert!(r.is_none());
    assert_eq!(vm.vgic().get_shared(40).state, IrqState::IrqSPend);
}

#[test]
fn distributor_is_an_emulated_device() {
    let vm = vm_on_cores(vec![0]);
    assert_eq!(vm.emu_type(), EmuDeviceType::EmuDeviceTGicd);
    assert_eq!(vm.address_range(), (GICD_BASE, GICD_BASE + GICD_SIZE));
    assert!(vm.handler(&read_ctx(GICD_BASE + 0x100, 4)));
    assert!(!vm.handler(&read_ctx(0x1000, 4)));
}

#[test]
fn config_and_route_events() {
    let mut vm = vm_on_cores(vec![0, 1]);
    // trigger-mode configuration of a locally owned shared interrupt
    let r = vm.route_event(0, InitcEvent::VgicdSetCfg, 40, 2);
    assert!(r.is_none());
    assert_eq!(vm.vgic().get_shared(40).cfg, 2);
    // rerouting hands the record to the named vCPU's core
    let r = vm.route_event(0, InitcEvent::VgicdRoute, 40, 1);
    assert!(r.is_none());
    assert_eq!(vm.vgic().get_shared(40).targets, 1);
    // a priority change now has to travel to core 1
    let r = vm.route_event(0, InitcEvent::VgicdSetPrio, 40, 0x80);
    let cm = r.unwrap();
    assert_eq!(cm.target_pcpu, 1);
    assert_eq!(cm.msg.event, InitcEvent::VgicdSetPrio);
    assert_eq!(vm.vgic().get_shared(40).prio, 0);
    vm.handle_initc_message(1, &cm.msg);
    assert_eq!(vm.vgic().get_shared(40).prio, 0x80);
}

#[test]
fn vcpu_vm_back_reference() {
    let vm = vm_on_cores(vec![0, 1]);
    let vcpu = vm.vcpu(1).unwrap();
    let vms = vec![vm];
    let owner = vcpu.vm(&vms).unwrap();
    assert_eq!(owner.id(), 7);
    let stranger = vgic::vm::Vcpu { id: 0, phys_id: 2, vm_id: 99 };
    assert!(stranger.vm(&vms).is_none());
}

#[test]
fn ipi_message_envelope() {
    let inner = IpiInitcMessage { event: InitcEvent::VgicdSetEn, vm_id: 7, int_id: 33, val: 1 };
    let msg = IpiMessage { ipi_type: IpiType::Untyped, ipi_message: IpiInnerMsg::Initc(inner) };
    match msg.ipi_message {
        IpiInnerMsg::Initc(m) => {
            assert_eq!(m.event, InitcEvent::VgicdSetEn);
            assert_eq!(m.int_id, 33);
        }
        IpiInnerMsg::Empty => panic!("expected an interrupt-controller payload"),
    }
}
