//! User side of the system-call interface: the register frame a program
//! loads before `svc #0`, and how it meets the kernel's decoding.

use vstd::prelude::*;
use crate::syscall::{decode_syscall, is_console_fd, SyscallRequest, SYS_EXIT, SYS_SHUTDOWN, SYS_WRITE};
use crate::trap::{spec_exception_class, spec_trap_action, TrapAction, TrapContext, EC_SVC64};

verus! {

/// The registers of a system call: the number goes in x8, the arguments in
/// x0..x2; the kernel's result comes back in x0.
#[derive(Clone, Copy, Debug)]
pub struct SyscallFrame {
    pub id: usize,
    pub args: [usize; 3],
}

/// Number and arguments of `write(fd, buf, len)`.
pub open spec fn write_call(fd: usize, buf: usize, len: usize) -> (usize, Seq<usize>) {
    (SYS_WRITE, seq![fd, buf, len])
}

/// Number and arguments of `exit(code)`.
pub open spec fn exit_call(code: i32) -> (usize, Seq<usize>) {
    (SYS_EXIT, seq![code as usize, 0, 0])
}

/// Number and arguments of `shutdown()`.
pub open spec fn shutdown_call() -> (usize, Seq<usize>) {
    (SYS_SHUTDOWN, seq![0usize, 0, 0])
}

/// Writes the `len` bytes at address `buf` to descriptor `fd` (1 = stdout,
/// 2 = stderr). The kernel answers with the number of bytes written, or -1.
pub fn sys_write(fd: usize, buf: usize, len: usize) -> (r: SyscallFrame)
    ensures
        (r.id, r.args@) == write_call(fd, buf, len),
        r.id == 64 && r.args@ == seq![fd, buf, len],
{
    let r = SyscallFrame { id: SYS_WRITE, args: [fd, buf, len] };
    assert(r.args@ =~= seq![fd, buf, len]);
    r
}

/// Exits the running program with `exit_code`. The call does not return.
pub fn sys_exit(exit_code: i32) -> (r: SyscallFrame)
    ensures
        (r.id, r.args@) == exit_call(exit_code),
        r.id == 93 && r.args@ == seq![exit_code as usize, 0, 0],
{
    let r = SyscallFrame { id: SYS_EXIT, args: [exit_code as usize, 0, 0] };
    assert(r.args@ =~= seq![exit_code as usize, 0, 0]);
    r
}

/// Powers the machine off. The call does not return.
pub fn sys_shutdown() -> (r: SyscallFrame)
    ensures
        (r.id, r.args@) == shutdown_call(),
        r.id == 200 && r.args@ == seq![0usize, 0, 0],
{
    let r = SyscallFrame { id: SYS_SHUTDOWN, args: [0, 0, 0] };
    assert(r.args@ =~= seq![0usize, 0, 0]);
    r
}

/// What a program asks for is what the kernel decodes: a write keeps its
/// descriptor, buffer and length (and is refused when the descriptor is not
/// stdout or stderr), an exit keeps its code, a shutdown is a shutdown.
pub proof fn lemma_calls_decode_to_requests(fd: usize, buf: usize, len: usize, code: i32)
    ensures
        decode_syscall(write_call(fd, buf, len).0, write_call(fd, buf, len).1) == (if is_console_fd(fd) {
            SyscallRequest::Write { fd, buf, len }
        } else {
            SyscallRequest::InvalidFd { fd }
        }),
        decode_syscall(exit_call(code).0, exit_call(code).1) == (SyscallRequest::Exit { code }),
        decode_syscall(shutdown_call().0, shutdown_call().1) == SyscallRequest::Shutdown,
{
    assert((code as usize) as i32 == code) by (bit_vector);
}

/// The result the kernel stores in x0 (as a register word) is the result the
/// program reads back.
pub proof fn lemma_result_survives_register(ret: isize)
    ensures
        (ret as usize) as isize == ret,
{
    assert((ret as usize) as isize == ret) by (bit_vector);
}

/// The whole round trip of a system call. A program loads number `id` into
/// x8 and `args` into x0..x2 and executes `svc #0`; the trap frame `ctx` holds
/// those registers and ESR_EL1 reports an SVC. Then the kernel decides on the
/// system call `id` with exactly `args`, which it decodes as the table says;
/// once it stores its result `ret` (the frame becomes `after`), the program
/// reads back `ret` from x0, and every other register is as it left it.
pub proof fn lemma_syscall_round_trip(
    id: usize,
    args: Seq<usize>,
    ctx: TrapContext,
    esr: u64,
    ret: isize,
    after: TrapContext,
)
    requires
        args.len() == 3,
        spec_exception_class(esr) == EC_SVC64,
        ctx.x[8] == id,
        ctx.x[0] == args[0],
        ctx.x[1] == args[1],
        ctx.x[2] == args[2],
        after.x@ == ctx.x@.update(0, ret as usize),
    ensures
        spec_trap_action(ctx, esr) == (TrapAction::Syscall { id, args: [args[0], args[1], args[2]] }),
        decode_syscall(ctx.x[8], seq![ctx.x[0], ctx.x[1], ctx.x[2]]) == decode_syscall(id, args),
        after.x[0] as isize == ret,
        forall|i: int| 1 <= i < 31 ==> after.x[i] == ctx.x[i],
{
    assert(seq![ctx.x[0], ctx.x[1], ctx.x[2]] =~= args);
    assert(after.x[0] == ret as usize);
    lemma_result_survives_register(ret);
}

} // verus!
