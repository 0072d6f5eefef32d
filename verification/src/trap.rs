//! AArch64 synchronous exceptions: the saved register frame, the exception
//! class in ESR_EL1, and what the kernel does with each trap.

use vstd::prelude::*;

verus! {

/// ESR_EL1.EC value of an SVC instruction executed in AArch64 state.
pub const EC_SVC64: u64 = 0x15;

/// The registers saved on trap entry, in the order of the trap vector's
/// stack frame: x0..x30, the interrupted stack pointer, ELR_EL1 (where the
/// trap returns to) and SPSR_EL1 (the interrupted processor state).
pub struct TrapContext {
    pub x: [usize; 31],
    pub sp: usize,
    pub elr: usize,
    pub spsr: usize,
}

/// The exception class: bits 31..26 of ESR_EL1.
pub open spec fn spec_exception_class(esr: u64) -> u64 {
    (esr >> 26u64) & 0x3fu64
}

/// The exception class: bits 31..26 of ESR_EL1.
pub fn exception_class(esr: u64) -> (r: u64)
    ensures
        r == spec_exception_class(esr),
        r < 64,
        r == (esr as int / 0x400_0000) % 64,
{
    assert((esr >> 26u64) & 0x3fu64 < 64) by (bit_vector);
    assert((esr >> 26u64) & 0x3fu64 == (esr / 0x400_0000u64) % 64) by (bit_vector);
    (esr >> 26) & 0x3f
}

/// What the kernel does with a synchronous exception.
#[derive(Clone, Copy, Debug)]
pub enum TrapAction {
    /// A system call: number from x8, arguments from x0..x2. Its result goes
    /// back to x0 through [`TrapContext::set_syscall_return`].
    Syscall { id: usize, args: [usize; 3] },
    /// Any other exception is fatal: report it and power off.
    Fatal { ec: u64, esr: u64, elr: usize, spsr: usize },
}

/// What the kernel does with the synchronous exception described by `esr`
/// that trapped with the registers `ctx`: an SVC is a system call numbered by
/// x8 with arguments x0..x2; anything else is fatal.
pub open spec fn spec_trap_action(ctx: TrapContext, esr: u64) -> TrapAction {
    if spec_exception_class(esr) == EC_SVC64 {
        TrapAction::Syscall { id: ctx.x[8], args: [ctx.x[0], ctx.x[1], ctx.x[2]] }
    } else {
        TrapAction::Fatal { ec: spec_exception_class(esr), esr: esr, elr: ctx.elr, spsr: ctx.spsr }
    }
}

/// Decides what to do with the synchronous exception described by `esr`
/// that trapped with the registers `ctx`.
pub fn trap_handler(ctx: &TrapContext, esr: u64) -> (r: TrapAction)
    ensures
        r == spec_trap_action(*ctx, esr),
        (esr as int / 0x400_0000) % 64 == 0x15 ==> r == (TrapAction::Syscall {
            id: ctx.x[8],
            args: [ctx.x[0], ctx.x[1], ctx.x[2]],
        }),
        (esr as int / 0x400_0000) % 64 != 0x15 ==> r == (TrapAction::Fatal {
            ec: ((esr as int / 0x400_0000) % 64) as u64,
            esr: esr,
            elr: ctx.elr,
            spsr: ctx.spsr,
        }),
{
    proof {
        lemma_only_svc_traps_are_syscalls(*ctx, esr);
    }
    let ec = exception_class(esr);
    if ec == EC_SVC64 {
        TrapAction::Syscall { id: ctx.x[8], args: [ctx.x[0], ctx.x[1], ctx.x[2]] }
    } else {
        TrapAction::Fatal { ec, esr, elr: ctx.elr, spsr: ctx.spsr }
    }
}

/// Only an SVC (exception class 0x15 in bits 31..26 of ESR_EL1) becomes a
/// system call; every other exception, data and instruction aborts included,
/// is fatal and reported with its class, ESR, ELR and SPSR.
pub proof fn lemma_only_svc_traps_are_syscalls(ctx: TrapContext, esr: u64)
    ensures
        (spec_trap_action(ctx, esr) is Syscall) <==> (esr as int / 0x400_0000) % 64 == 0x15,
        (esr as int / 0x400_0000) % 64 == 0x15 ==> spec_trap_action(ctx, esr) == (TrapAction::Syscall {
            id: ctx.x[8],
            args: [ctx.x[0], ctx.x[1], ctx.x[2]],
        }),
        (esr as int / 0x400_0000) % 64 != 0x15 ==> spec_trap_action(ctx, esr) == (TrapAction::Fatal {
            ec: ((esr as int / 0x400_0000) % 64) as u64,
            esr: esr,
            elr: ctx.elr,
            spsr: ctx.spsr,
        }),
{
    assert((esr >> 26u64) & 0x3fu64 == (esr / 0x400_0000u64) % 64) by (bit_vector);
}

impl TrapContext {
    /// Stores a system call's result in x0, where the caller finds it after
    /// the exception returns. Nothing else in the frame changes.
    pub fn set_syscall_return(&mut self, ret: isize)
        ensures
            final(self).x@ == old(self).x@.update(0, ret as usize),
            final(self).sp == old(self).sp,
            final(self).elr == old(self).elr,
            final(self).spsr == old(self).spsr,
    {
        self.x[0] = ret as usize;
    }
}

} // verus!
