//! Emulated-device surface: the trapped-access descriptor handed in by
//! the external trap mechanism, the device-type tags, the interface an
//! emulated device implements, and the distributor register map decoder.

use vstd::prelude::*;

verus! {

/// Guest physical base address of the distributor register window.
pub const GICD_BASE: usize = 0x0800_0000;

/// Size in bytes of the distributor register window.
pub const GICD_SIZE: usize = 0x1000;

/// Byte offset of the controller-enable register in the distributor window.
pub const GICD_CTLR_OFF: usize = 0x000;

/// Byte offset of the controller type register.
pub const GICD_TYPER_OFF: usize = 0x004;

/// Byte offset of the implementer identification register.
pub const GICD_IIDR_OFF: usize = 0x008;

/// A trapped register access: target address, access width, direction,
/// sign-extension flag, and the guest register carrying or receiving the
/// value. Immutable; one instance per trap.
#[derive(Copy, Clone, Debug, PartialEq, Eq, Structural)]
pub struct EmuContext {
    /// Guest physical address of the access.
    pub address: usize,
    /// Access width in bytes.
    pub width: usize,
    /// Whether the access is a write.
    pub write: bool,
    /// Whether a read result is sign-extended into the guest register.
    pub sign_ext: bool,
    /// Index of the guest register carrying (write) or receiving (read) the value.
    pub reg: usize,
    /// Width of that guest register in bytes.
    pub reg_width: usize,
}

/// Device-type tag of an emulated device.
#[derive(Copy, Clone, Debug, PartialEq, Eq, Structural)]
pub enum EmuDeviceType {
    /// An emulated console.
    EmuDeviceTConsole,
    /// The emulated interrupt-controller distributor.
    EmuDeviceTGicd,
}

/// Interface of a component that claims a guest address range: it
/// reports its device-type tag and its half-open claimed range, and
/// decides whether an access falls to it. Each implementation states its
/// tag and range as spec functions, and the reported values and the
/// consumed-access decision are proved to match them.
pub trait EmuDev {
    /// The device-type tag this device reports.
    spec fn spec_emu_type(&self) -> EmuDeviceType;

    /// The half-open guest address range this device claims, as
    /// (start, end).
    spec fn spec_address_range(&self) -> (usize, usize);

    /// The device-type tag of this device.
    fn emu_type(&self) -> (r: EmuDeviceType)
        ensures
            r == self.spec_emu_type(),
    ;

    /// The half-open guest address range this device claims, as
    /// (start, end).
    fn address_range(&self) -> (r: (usize, usize))
        ensures
            r == self.spec_address_range(),
    ;

    /// Whether this device consumes the given access: exactly the
    /// accesses whose address falls in its claimed range.
    fn handler(&self, emu_ctx: &EmuContext) -> (r: bool)
        ensures
            r == (self.spec_address_range().0 <= emu_ctx.address
                < self.spec_address_range().1),
    ;
}

/// A distributor register, decoded from a byte offset: either one of the
/// identification registers, or a register group with the first
/// interrupt number the accessed word covers.
#[derive(Copy, Clone, Debug, PartialEq, Eq, Structural)]
pub enum GicdReg {
    /// Controller enable register.
    Ctlr,
    /// Controller type register (read-only).
    Typer,
    /// Implementer identification register (read-only).
    Iidr,
    /// Set-enable bit per interrupt; the field is the first covered interrupt.
    IsEnabler(usize),
    /// Clear-enable bit per interrupt.
    IcEnabler(usize),
    /// Set-pending bit per interrupt.
    IsPendr(usize),
    /// Clear-pending bit per interrupt.
    IcPendr(usize),
    /// Set-active bit per interrupt.
    IsActiver(usize),
    /// Clear-active bit per interrupt.
    IcActiver(usize),
    /// Priority byte per interrupt; the field is the first covered interrupt.
    Priorityr(usize),
    /// Target byte per interrupt; the field is the first covered interrupt.
    Targetsr(usize),
    /// Configuration, two bits per interrupt; the field is the first covered interrupt.
    Icfgr(usize),
    /// Reserved or unmapped offset: reads return zero, writes are ignored.
    Unsupported,
}

/// The register a byte offset within the distributor window decodes to.
pub open spec fn decode_gicd_offset_spec(off: usize) -> GicdReg {
    if off == GICD_CTLR_OFF {
        GicdReg::Ctlr
    } else if off == GICD_TYPER_OFF {
        GicdReg::Typer
    } else if off == GICD_IIDR_OFF {
        GicdReg::Iidr
    } else if 0x100 <= off < 0x180 && off % 4 == 0 {
        GicdReg::IsEnabler(((((off - 0x100) / 4) * 32)) as usize)
    } else if 0x180 <= off < 0x200 && off % 4 == 0 {
        GicdReg::IcEnabler(((((off - 0x180) / 4) * 32)) as usize)
    } else if 0x200 <= off < 0x280 && off % 4 == 0 {
        GicdReg::IsPendr(((((off - 0x200) / 4) * 32)) as usize)
    } else if 0x280 <= off < 0x300 && off % 4 == 0 {
        GicdReg::IcPendr(((((off - 0x280) / 4) * 32)) as usize)
    } else if 0x300 <= off < 0x380 && off % 4 == 0 {
        GicdReg::IsActiver(((((off - 0x300) / 4) * 32)) as usize)
    } else if 0x380 <= off < 0x400 && off % 4 == 0 {
        GicdReg::IcActiver(((((off - 0x380) / 4) * 32)) as usize)
    } else if 0x400 <= off < 0x800 {
        GicdReg::Priorityr((off - 0x400) as usize)
    } else if 0x800 <= off < 0xc00 {
        GicdReg::Targetsr((off - 0x800) as usize)
    } else if 0xc00 <= off < 0xd00 && off % 4 == 0 {
        GicdReg::Icfgr(((((off - 0xc00) / 4) * 16)) as usize)
    } else {
        GicdReg::Unsupported
    }
}

/// Decodes a byte offset within the distributor window against the
/// register map. Offsets outside the map decode to `Unsupported`, which
/// dispatch treats permissively: reads return zero, writes are ignored.
pub fn decode_gicd_offset(off: usize) -> (r: GicdReg)
    ensures
        r == decode_gicd_offset_spec(off),
{
    if off == GICD_CTLR_OFF {
        GicdReg::Ctlr
    } else if off == GICD_TYPER_OFF {
        GicdReg::Typer
    } else if off == GICD_IIDR_OFF {
        GicdReg::Iidr
    } else if 0x100 <= off && off < 0x180 && off % 4 == 0 {
        GicdReg::IsEnabler(((off - 0x100) / 4) * 32)
    } else if 0x180 <= off && off < 0x200 && off % 4 == 0 {
        GicdReg::IcEnabler(((off - 0x180) / 4) * 32)
    } else if 0x200 <= off && off < 0x280 && off % 4 == 0 {
        GicdReg::IsPendr(((off - 0x200) / 4) * 32)
    } else if 0x280 <= off && off < 0x300 && off % 4 == 0 {
        GicdReg::IcPendr(((off - 0x280) / 4) * 32)
    } else if 0x300 <= off && off < 0x380 && off % 4 == 0 {
        GicdReg::IsActiver(((off - 0x300) / 4) * 32)
    } else if 0x380 <= off && off < 0x400 && off % 4 == 0 {
        GicdReg::IcActiver(((off - 0x380) / 4) * 32)
    } else if 0x400 <= off && off < 0x800 {
        GicdReg::Priorityr(off - 0x400)
    } else if 0x800 <= off && off < 0xc00 {
        GicdReg::Targetsr(off - 0x800)
    } else if 0xc00 <= off && off < 0xd00 && off % 4 == 0 {
        GicdReg::Icfgr(((off - 0xc00) / 4) * 16)
    } else {
        GicdReg::Unsupported
    }
}

} // verus!
