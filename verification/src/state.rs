//! The four-state interrupt state machine: a pending bit and an active
//! bit packed into one enum, its numeric codec, and the transition rules.

use vstd::prelude::*;
use crate::VgicError;
use crate::GIC_PRIVINT_NUM;

verus! {

/// State of one (VM, interrupt-number) pair: the pending and active bits
/// packed into a four-value enum, so that no illegal combination exists.
#[derive(Copy, Clone, Debug, PartialEq, Eq, Structural)]
pub enum IrqState {
    IrqSInactive,
    IrqSPend,
    IrqSActive,
    IrqSPendActive,
}

/// The pending bit of a state.
pub open spec fn pend_bit(s: IrqState) -> bool {
    match s {
        IrqState::IrqSPend | IrqState::IrqSPendActive => true,
        IrqState::IrqSInactive | IrqState::IrqSActive => false,
    }
}

/// The active bit of a state.
pub open spec fn active_bit(s: IrqState) -> bool {
    match s {
        IrqState::IrqSActive | IrqState::IrqSPendActive => true,
        IrqState::IrqSInactive | IrqState::IrqSPend => false,
    }
}

/// The state holding the given pending and active bits.
pub open spec fn state_of_bits(pend: bool, active: bool) -> IrqState {
    if pend && active {
        IrqState::IrqSPendActive
    } else if pend {
        IrqState::IrqSPend
    } else if active {
        IrqState::IrqSActive
    } else {
        IrqState::IrqSInactive
    }
}

/// Result of the `set-pending` transition: the pending bit is set to
/// `val`, the active bit is kept.
pub open spec fn set_pend_spec(s: IrqState, val: bool) -> IrqState {
    state_of_bits(val, active_bit(s))
}

/// Result of the `set-active` transition: the active bit is set to
/// `val`, the pending bit is kept.
pub open spec fn set_active_spec(s: IrqState, val: bool) -> IrqState {
    state_of_bits(pend_bit(s), val)
}

/// The numeric encoding of a state.
pub open spec fn state_to_num_spec(s: IrqState) -> usize {
    match s {
        IrqState::IrqSInactive => 0,
        IrqState::IrqSPend => 1,
        IrqState::IrqSActive => 2,
        IrqState::IrqSPendActive => 3,
    }
}

/// The state decoded from a numeric code, for codes in `0..=3`.
pub open spec fn num_to_state_spec(num: usize) -> IrqState {
    if num == 0 {
        IrqState::IrqSInactive
    } else if num == 1 {
        IrqState::IrqSPend
    } else if num == 2 {
        IrqState::IrqSActive
    } else {
        IrqState::IrqSPendActive
    }
}

impl IrqState {
    /// Decodes a numeric state code; codes at or above 4 are rejected
    /// with `InvalidState`, never clamped.
    pub fn num_to_state(num: usize) -> (r: Result<IrqState, VgicError>)
        ensures
            num <= 3 ==> r == Ok::<IrqState, VgicError>(num_to_state_spec(num)),
            num > 3 ==> r == Err::<IrqState, VgicError>(VgicError::InvalidState),
    {
        match num {
            0 => Ok(IrqState::IrqSInactive),
            1 => Ok(IrqState::IrqSPend),
            2 => Ok(IrqState::IrqSActive),
            3 => Ok(IrqState::IrqSPendActive),
            _ => Err(VgicError::InvalidState),
        }
    }

    /// Encodes the state as its numeric code in `0..=3`.
    pub fn to_num(self) -> (r: usize)
        ensures
            r == state_to_num_spec(self),
            r <= 3,
    {
        match self {
            IrqState::IrqSInactive => 0,
            IrqState::IrqSPend => 1,
            IrqState::IrqSActive => 2,
            IrqState::IrqSPendActive => 3,
        }
    }

    /// Applies `set-pending(val)`: `Inactive <-> Pending` and
    /// `Active <-> PendingAndActive`; a no-op when the pending bit
    /// already equals `val`.
    pub fn set_pend(self, val: bool) -> (r: IrqState)
        ensures
            r == set_pend_spec(self, val),
    {
        match self {
            IrqState::IrqSInactive => if val { IrqState::IrqSPend } else { IrqState::IrqSInactive },
            IrqState::IrqSPend => if val { IrqState::IrqSPend } else { IrqState::IrqSInactive },
            IrqState::IrqSActive => if val { IrqState::IrqSPendActive } else { IrqState::IrqSActive },
            IrqState::IrqSPendActive => if val { IrqState::IrqSPendActive } else { IrqState::IrqSActive },
        }
    }

    /// Applies `set-active(val)`: `Inactive <-> Active` (direct
    /// activation, used by inject paths) and
    /// `Pending <-> PendingAndActive`; a no-op when the active bit
    /// already equals `val`.
    pub fn set_active(self, val: bool) -> (r: IrqState)
        ensures
            r == set_active_spec(self, val),
    {
        match self {
            IrqState::IrqSInactive => if val { IrqState::IrqSActive } else { IrqState::IrqSInactive },
            IrqState::IrqSPend => if val { IrqState::IrqSPendActive } else { IrqState::IrqSPend },
            IrqState::IrqSActive => if val { IrqState::IrqSActive } else { IrqState::IrqSInactive },
            IrqState::IrqSPendActive => if val { IrqState::IrqSPendActive } else { IrqState::IrqSPend },
        }
    }
}

/// Law: decoding a code in `0..=3` and re-encoding it yields the code
/// back, and encoding then decoding yields the state back.
pub proof fn lemma_state_codec_round_trip(num: usize)
    requires
        num <= 3,
    ensures
        state_to_num_spec(num_to_state_spec(num)) == num,
        forall|s: IrqState| num_to_state_spec(state_to_num_spec(s)) == s,
{
}

/// Law: `set-pending(true)` is idempotent; applying it twice in a row
/// leaves the same state as applying it once.
pub proof fn lemma_set_pend_true_idempotent(s: IrqState)
    ensures
        set_pend_spec(set_pend_spec(s, true), true) == set_pend_spec(s, true),
{
}

/// Whether an interrupt identifier is private (per-virtual-CPU banked);
/// identifiers at or above the threshold are shared across the VM.
pub fn gic_is_priv(int_id: usize) -> (r: bool)
    ensures
        r == (int_id < GIC_PRIVINT_NUM),
{
    int_id < GIC_PRIVINT_NUM
}

} // verus!
