//! Kernel side of the system-call interface: the call table (Linux AArch64
//! numbering: x8 = number, x0..x2 = arguments, x0 = result) and the checks
//! `write` makes before anything reaches the console.

use vstd::prelude::*;
use vstd::utf8::{
    is_continuation_byte, length_of_first_scalar, partial_valid_partial_invalid_utf8, partial_valid_utf8,
    partial_valid_utf8_extend, pop_first_scalar, valid_first_scalar, valid_utf8,
};

verus! {

/// `write(fd, buf, len)`.
pub const SYS_WRITE: usize = 64;
/// `exit(code)`.
pub const SYS_EXIT: usize = 93;
/// `shutdown()`: power the machine off.
pub const SYS_SHUTDOWN: usize = 200;

/// The file descriptor of standard output.
pub const STDOUT: usize = 1;
/// The file descriptor of standard error.
pub const STDERR: usize = 2;

/// A decoded system call.
#[derive(Clone, Copy, Debug, PartialEq, Eq, Structural)]
pub enum SyscallRequest {
    /// Write `len` bytes at address `buf` to standard output or error.
    Write { fd: usize, buf: usize, len: usize },
    /// A write to a descriptor other than standard output or error: answered -1.
    InvalidFd { fd: usize },
    /// Exit the running program (the batch system then powers off).
    Exit { code: i32 },
    /// Power the machine off.
    Shutdown,
    /// A number the kernel does not implement: answered -1.
    Unknown { id: usize },
}

/// True for the descriptors a program may write to: stdout and stderr.
pub open spec fn is_console_fd(fd: usize) -> bool {
    fd == STDOUT || fd == STDERR
}

/// The system call table.
pub open spec fn decode_syscall(id: usize, args: Seq<usize>) -> SyscallRequest {
    if id == SYS_WRITE {
        if is_console_fd(args[0]) {
            SyscallRequest::Write { fd: args[0], buf: args[1], len: args[2] }
        } else {
            SyscallRequest::InvalidFd { fd: args[0] }
        }
    } else if id == SYS_EXIT {
        SyscallRequest::Exit { code: args[0] as i32 }
    } else if id == SYS_SHUTDOWN {
        SyscallRequest::Shutdown
    } else {
        SyscallRequest::Unknown { id }
    }
}

/// Decodes the system call `id` with arguments `args`.
pub fn syscall(id: usize, args: [usize; 3]) -> (r: SyscallRequest)
    ensures
        r == decode_syscall(id, args@),
        id != 64 && id != 93 && id != 200 ==> r == (SyscallRequest::Unknown { id }),
        (r is Shutdown) <==> id == 200,
        (r is Exit) <==> id == 93,
        (r is Write || r is InvalidFd) <==> id == 64,
{
    proof {
        lemma_syscall_table(id, args@);
    }
    if id == SYS_WRITE {
        if args[0] == STDOUT || args[0] == STDERR {
            SyscallRequest::Write { fd: args[0], buf: args[1], len: args[2] }
        } else {
            SyscallRequest::InvalidFd { fd: args[0] }
        }
    } else if id == SYS_EXIT {
        SyscallRequest::Exit { code: args[0] as i32 }
    } else if id == SYS_SHUTDOWN {
        SyscallRequest::Shutdown
    } else {
        SyscallRequest::Unknown { id }
    }
}

/// The system-call table by number: 64 is `write` (refused unless the
/// descriptor is 1 or 2), 93 is `exit`, 200 is `shutdown`, and every other
/// number is unknown, so it is answered -1 and nothing else happens.
pub proof fn lemma_syscall_table(id: usize, args: Seq<usize>)
    requires
        args.len() == 3,
    ensures
        id != 64 && id != 93 && id != 200 ==> decode_syscall(id, args) == (SyscallRequest::Unknown { id }),
        (decode_syscall(id, args) is Shutdown) <==> id == 200,
        (decode_syscall(id, args) is Exit) <==> id == 93,
        (decode_syscall(id, args) is Write || decode_syscall(id, args) is InvalidFd) <==> id == 64,
        id == 64 && (args[0] == 1 || args[0] == 2) ==> decode_syscall(id, args) == (SyscallRequest::Write {
            fd: args[0],
            buf: args[1],
            len: args[2],
        }),
        id == 64 && args[0] != 1 && args[0] != 2 ==> decode_syscall(id, args) == (SyscallRequest::InvalidFd { fd: args[0] }),
{
}

impl SyscallRequest {
    /// The result of a request that the kernel answers without touching
    /// memory or devices: -1 for a bad descriptor or an unknown number.
    /// `None` for the requests that do work (`write`) or never return.
    pub fn immediate_reply(&self) -> (r: Option<isize>)
        ensures
            r == (match *self {
                SyscallRequest::InvalidFd { .. } => Some(-1isize),
                SyscallRequest::Unknown { .. } => Some(-1isize),
                _ => None,
            }),
    {
        match self {
            SyscallRequest::InvalidFd { .. } => Some(-1),
            SyscallRequest::Unknown { .. } => Some(-1),
            _ => None,
        }
    }
}

/// True for a UTF-8 continuation byte, 10xxxxxx.
fn is_continuation(b: u8) -> (r: bool)
    ensures
        r == is_continuation_byte(b),
{
    0x80 <= b && b <= 0xbf
}

/// The length of the well-formed UTF-8 encoding of one scalar at the start of
/// `bytes[i..]`, or `None` when none starts there.
fn first_scalar_len(bytes: &[u8], i: usize) -> (r: Option<usize>)
    requires
        i < bytes@.len(),
    ensures
        ({
            let rest = bytes@.subrange(i as int, bytes@.len() as int);
            match r {
                Some(k) => valid_first_scalar(rest) && k == length_of_first_scalar(rest),
                None => !valid_first_scalar(rest),
            }
        }),
{
    let ghost rest = bytes@.subrange(i as int, bytes@.len() as int);
    let n = bytes.len() - i;
    let b0 = bytes[i];
    assert(rest.len() == n && rest[0] == b0);
    if b0 <= 0x7f {
        assert((b0 & 0x7Fu8) as u32 <= 0x7f) by (bit_vector);
        Some(1)
    } else if 0xc0 <= b0 && b0 <= 0xdf {
        if n < 2 {
            return None;
        }
        let b1 = bytes[i + 1];
        assert(rest[1] == b1);
        if !is_continuation(b1) {
            return None;
        }
        let cp: u32 = (((b0 & 0x1F) as u32) << 6) | ((b1 & 0x3f) as u32);
        if 0x80 <= cp && !(0xD800 <= cp && cp <= 0xDFFF) {
            Some(2)
        } else {
            None
        }
    } else if 0xe0 <= b0 && b0 <= 0xef {
        if n < 3 {
            return None;
        }
        let b1 = bytes[i + 1];
        let b2 = bytes[i + 2];
        assert(rest[1] == b1 && rest[2] == b2);
        if !is_continuation(b1) || !is_continuation(b2) {
            return None;
        }
        let cp: u32 = (((b0 & 0x0F) as u32) << 12) | (((b1 & 0x3f) as u32) << 6) | ((b2 & 0x3f) as u32);
        if 0x800 <= cp && !(0xD800 <= cp && cp <= 0xDFFF) {
            Some(3)
        } else {
            None
        }
    } else if 0xf0 <= b0 && b0 <= 0xf7 {
        if n < 4 {
            return None;
        }
        let b1 = bytes[i + 1];
        let b2 = bytes[i + 2];
        let b3 = bytes[i + 3];
        assert(rest[1] == b1 && rest[2] == b2 && rest[3] == b3);
        if !is_continuation(b1) || !is_continuation(b2) || !is_continuation(b3) {
            return None;
        }
        let cp: u32 = (((b0 & 0x07) as u32) << 18) | (((b1 & 0x3f) as u32) << 12) | (((b2 & 0x3f) as u32) << 6)
            | ((b3 & 0x3f) as u32);
        if 0x10000 <= cp && cp <= 0x10ffff && !(0xD800 <= cp && cp <= 0xDFFF) {
            Some(4)
        } else {
            None
        }
    } else {
        None
    }
}

/// Whether `bytes` is well-formed UTF-8 (vstd's `valid_utf8`: no stray
/// continuation byte, no truncated or overlong sequence, no surrogate,
/// nothing above U+10FFFF). Scans scalar by scalar.
fn utf8_ok(bytes: &[u8]) -> (r: bool)
    ensures
        r == valid_utf8(bytes@),
{
    let mut i: usize = 0;
    assert(bytes@.subrange(0, 0) =~= Seq::<u8>::empty());
    while i < bytes.len()
        invariant
            partial_valid_utf8(bytes@, i as int),
        decreases bytes@.len() - i,
    {
        let ghost rest = bytes@.subrange(i as int, bytes@.len() as int);
        match first_scalar_len(bytes, i) {
            Some(k) => {
                proof {
                    partial_valid_utf8_extend(bytes@, i as int);
                }
                i = i + k;
            },
            None => {
                proof {
                    assert(!valid_utf8(rest));
                    partial_valid_partial_invalid_utf8(bytes@, i as int);
                }
                return false;
            },
        }
    }
    assert(bytes@.subrange(0, bytes@.len() as int) =~= bytes@);
    true
}

/// Two facts of every well-formed UTF-8 text: no byte is 0xC0, 0xC1 or above
/// 0xF4, and every leading byte of a multi-byte sequence (0xC0 and up) is
/// followed by a continuation byte.
pub proof fn lemma_utf8_byte_structure(s: Seq<u8>)
    requires
        valid_utf8(s),
    ensures
        forall|j: int| 0 <= j < s.len() ==> #[trigger] s[j] <= 0xf4 && s[j] != 0xc0 && s[j] != 0xc1,
        forall|j: int| 0 <= j < s.len() && #[trigger] s[j] >= 0xc0 ==> j + 1 < s.len() && is_continuation_byte(s[j + 1]),
    decreases s.len(),
{
    if s.len() > 0 {
        let k = length_of_first_scalar(s);
        let rest = s.subrange(k, s.len() as int);
        assert(rest == pop_first_scalar(s));
        lemma_utf8_byte_structure(rest);
        let b0 = s[0];
        if k == 2 {
            let b1 = s[1];
            assert(((((b0 & 0x1Fu8) as u32) << 6u32) | ((b1 & 0x3fu8) as u32)) >= 0x80u32 && 0xc0u8 <= b0
                && b0 <= 0xdfu8 ==> b0 >= 0xc2u8) by (bit_vector);
        }
        if k == 4 {
            let b1 = s[1];
            let b2 = s[2];
            let b3 = s[3];
            assert(((((b0 & 0x07u8) as u32) << 18u32) | (((b1 & 0x3fu8) as u32) << 12u32) | (((b2 & 0x3fu8)
                as u32) << 6u32) | ((b3 & 0x3fu8) as u32)) <= 0x10ffffu32 && 0xf0u8 <= b0 && b0 <= 0xf7u8
                ==> b0 <= 0xf4u8) by (bit_vector);
        }
        assert forall|j: int| 0 <= j < s.len() implies #[trigger] s[j] <= 0xf4 && s[j] != 0xc0 && s[j] != 0xc1 by {
            if j >= k {
                assert(s[j] == rest[j - k]);
            }
        }
        assert forall|j: int| 0 <= j < s.len() && #[trigger] s[j] >= 0xc0 implies j + 1 < s.len()
            && is_continuation_byte(s[j + 1]) by {
            if j >= k {
                assert(s[j] == rest[j - k]);
                assert(s[j + 1] == rest[j + 1 - k]);
            }
        }
    }
}

/// A text with a byte 0xF5..0xFF (or 0xC0, 0xC1), or with a leading byte
/// that is not followed by a continuation byte, is not UTF-8: `is_text`
/// rejects it and `sys_write` answers -1 without printing.
pub proof fn lemma_malformed_bytes_are_not_text(s: Seq<u8>, j: int)
    requires
        0 <= j < s.len(),
        s[j] >= 0xf5 || s[j] == 0xc0 || s[j] == 0xc1 || (s[j] >= 0xc0 && (j + 1 == s.len()
            || !is_continuation_byte(s[j + 1]))),
    ensures
        !valid_utf8(s),
{
    if valid_utf8(s) {
        lemma_utf8_byte_structure(s);
        assert(s[j] <= 0xf4);
    }
}

/// True when `bytes` is text the console may print: well-formed UTF-8.
pub fn is_text(bytes: &[u8]) -> (r: bool)
    ensures
        r == valid_utf8(bytes@),
{
    utf8_ok(bytes)
}

/// The result of `write(fd, bytes)`: the number of bytes written when `fd` is
/// stdout or stderr and `bytes` is UTF-8 text, which then goes to the console;
/// -1 otherwise, and nothing is printed.
pub fn sys_write(fd: usize, bytes: &[u8]) -> (r: isize)
    ensures
        r == (if is_console_fd(fd) && valid_utf8(bytes@) { bytes@.len() as isize } else { -1isize }),
        fd != 1 && fd != 2 ==> r == -1,
        !valid_utf8(bytes@) ==> r == -1,
        (fd == 1 || fd == 2) && valid_utf8(bytes@) ==> r == bytes@.len() as isize,
{
    if fd != STDOUT && fd != STDERR {
        return -1;
    }
    if is_text(bytes) {
        bytes.len() as isize
    } else {
        -1
    }
}

} // verus!
