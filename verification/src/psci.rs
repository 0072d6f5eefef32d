//! PSCI (ARM DEN0022D) power-state requests: which firmware function to call
//! and through which conduit, for each board.

use vstd::prelude::*;
use crate::bsp::Board;

verus! {

/// PSCI SYSTEM_OFF function ID (SMC32/HVC32 calling convention).
pub const PSCI_SYSTEM_OFF: u64 = 0x8400_0008;
/// PSCI SYSTEM_RESET function ID (SMC32/HVC32 calling convention).
pub const PSCI_SYSTEM_RESET: u64 = 0x8400_0009;

/// The instruction that traps to the PSCI firmware.
#[derive(Clone, Copy, Debug, PartialEq, Eq, Structural)]
pub enum Conduit {
    /// `hvc #0`: the hypervisor at EL2 implements PSCI (QEMU virt).
    Hvc,
    /// `smc #0`: the secure monitor at EL3 implements PSCI (Phytium D2000).
    Smc,
}

/// A PSCI call: the function ID goes in x0, then the conduit instruction traps.
#[derive(Clone, Copy, Debug, PartialEq, Eq, Structural)]
pub struct PsciCall {
    pub conduit: Conduit,
    pub function_id: u64,
}

/// The conduit that reaches the board's PSCI implementation.
pub open spec fn spec_conduit(board: Board) -> Conduit {
    match board {
        Board::QemuVirt => Conduit::Hvc,
        Board::PhytiumD2000 => Conduit::Smc,
    }
}

/// The conduit that reaches the board's PSCI implementation.
pub fn conduit(board: Board) -> (r: Conduit)
    ensures
        r == spec_conduit(board),
{
    match board {
        Board::QemuVirt => Conduit::Hvc,
        Board::PhytiumD2000 => Conduit::Smc,
    }
}

/// The call that powers the system off. A successful call does not return.
pub fn system_off(board: Board) -> (r: PsciCall)
    ensures
        r == (PsciCall { conduit: spec_conduit(board), function_id: PSCI_SYSTEM_OFF }),
        r.function_id == 0x8400_0008,
        board == Board::QemuVirt ==> r.conduit == Conduit::Hvc,
        board == Board::PhytiumD2000 ==> r.conduit == Conduit::Smc,
{
    PsciCall { conduit: conduit(board), function_id: PSCI_SYSTEM_OFF }
}

/// The call that cold-resets the system. A successful call does not return.
pub fn system_reset(board: Board) -> (r: PsciCall)
    ensures
        r == (PsciCall { conduit: spec_conduit(board), function_id: PSCI_SYSTEM_RESET }),
        r.function_id == 0x8400_0009,
        board == Board::QemuVirt ==> r.conduit == Conduit::Hvc,
        board == Board::PhytiumD2000 ==> r.conduit == Conduit::Smc,
{
    PsciCall { conduit: conduit(board), function_id: PSCI_SYSTEM_RESET }
}

} // verus!
