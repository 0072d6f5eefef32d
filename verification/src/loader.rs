//! Arithmetic of the UEFI loader that copies the Phytium D2000 kernel image to
//! its link address: how much memory to reserve, and the exception level the
//! firmware left the CPU in.

use vstd::prelude::*;
use crate::bsp::Board;

verus! {

/// Physical address the kernel image is loaded at and entered.
pub const KERNEL_LOAD_ADDR: u64 = 0x8008_0000;
/// Stack space reserved after the kernel image (512 KiB), as in the linker script.
pub const KERNEL_STACK_SIZE: usize = 0x8_0000;
/// The UEFI page size.
pub const PAGE_SIZE: usize = 0x1000;
/// Size of the buffer that receives the kernel file's `FileInfo`.
pub const FILE_INFO_BUF_SIZE: usize = 600;

/// The pages to allocate for a kernel image of `kernel_size` bytes: image
/// plus stack, rounded up to whole pages.
pub open spec fn spec_page_count(kernel_size: int) -> int {
    (kernel_size + KERNEL_STACK_SIZE + PAGE_SIZE - 1) / (PAGE_SIZE as int)
}

/// The number of pages that hold the kernel image and its stack.
pub fn page_count(kernel_size: usize) -> (r: usize)
    requires
        kernel_size + KERNEL_STACK_SIZE + 0xFFF <= usize::MAX,
    ensures
        r == spec_page_count(kernel_size as int),
        r * 4096 >= kernel_size + 0x8_0000,
        (r - 1) * 4096 < kernel_size + 0x8_0000,
{
    let r = (kernel_size + KERNEL_STACK_SIZE + 0xFFF) / 0x1000;
    assert(r * 0x1000 >= kernel_size + KERNEL_STACK_SIZE && (r - 1) * 0x1000 < kernel_size + KERNEL_STACK_SIZE) by (nonlinear_arith)
        requires
            r == (kernel_size + KERNEL_STACK_SIZE + 0xFFF) / 0x1000,
            kernel_size >= 0,
    ;
    r
}

/// The exception level held in a CurrentEL value: bits 3..2.
pub fn exception_level(current_el: u64) -> (r: u64)
    ensures
        r == (current_el as int / 4) % 4,
        r < 4,
{
    assert((current_el >> 2u64) & 3u64 == (current_el / 4) % 4) by (bit_vector);
    (current_el >> 2) & 3
}

/// The loader puts the kernel where the D2000 kernel is linked.
pub proof fn lemma_load_address_is_kernel_base()
    ensures
        KERNEL_LOAD_ADDR == Board::PhytiumD2000.spec_kernel_base(),
{
}

} // verus!
