//! Board support: the memory map and clock constants of each supported board.

use vstd::prelude::*;

verus! {

/// The boards the kernel can be built for.
#[derive(Clone, Copy, Debug, PartialEq, Eq, Structural)]
pub enum Board {
    /// The QEMU `virt` machine (the default board).
    QemuVirt,
    /// The Phytium D2000 development board.
    PhytiumD2000,
}

/// The size reserved for the kernel image between the kernel and the user program.
pub const KERNEL_RESERVED_SIZE: usize = 0x8_0000;

impl Board {
    /// Base address of the PL011 console UART.
    pub open spec fn spec_uart_base(self) -> usize {
        match self {
            Board::QemuVirt => 0x0900_0000,
            Board::PhytiumD2000 => 0x2800_1000,
        }
    }

    /// Start of physical RAM.
    pub open spec fn spec_ram_base(self) -> usize {
        match self {
            Board::QemuVirt => 0x4000_0000,
            Board::PhytiumD2000 => 0x8000_0000,
        }
    }

    /// Address at which the kernel image is loaded.
    pub open spec fn spec_kernel_base(self) -> usize {
        match self {
            Board::QemuVirt => 0x4008_0000,
            Board::PhytiumD2000 => 0x8008_0000,
        }
    }

    /// Address at which user programs are linked and loaded.
    pub open spec fn spec_app_base(self) -> usize {
        match self {
            Board::QemuVirt => 0x4010_0000,
            Board::PhytiumD2000 => 0x8010_0000,
        }
    }

    /// Reference clock of the PL011 UART in Hz.
    pub open spec fn spec_uart_clk_hz(self) -> u32 {
        match self {
            Board::QemuVirt => 24_000_000,
            Board::PhytiumD2000 => 48_000_000,
        }
    }

    /// Base address of the PL011 console UART.
    #[verifier::when_used_as_spec(spec_uart_base)]
    pub fn uart_base(self) -> (r: usize)
        ensures
            r == self.spec_uart_base(),
    {
        match self {
            Board::QemuVirt => 0x0900_0000,
            Board::PhytiumD2000 => 0x2800_1000,
        }
    }

    /// Start of physical RAM.
    #[verifier::when_used_as_spec(spec_ram_base)]
    pub fn ram_base(self) -> (r: usize)
        ensures
            r == self.spec_ram_base(),
    {
        match self {
            Board::QemuVirt => 0x4000_0000,
            Board::PhytiumD2000 => 0x8000_0000,
        }
    }

    /// Address at which the kernel image is loaded.
    #[verifier::when_used_as_spec(spec_kernel_base)]
    pub fn kernel_base(self) -> (r: usize)
        ensures
            r == self.spec_kernel_base(),
    {
        match self {
            Board::QemuVirt => 0x4008_0000,
            Board::PhytiumD2000 => 0x8008_0000,
        }
    }

    /// Address at which user programs are linked and loaded.
    #[verifier::when_used_as_spec(spec_app_base)]
    pub fn app_base(self) -> (r: usize)
        ensures
            r == self.spec_app_base(),
    {
        match self {
            Board::QemuVirt => 0x4010_0000,
            Board::PhytiumD2000 => 0x8010_0000,
        }
    }

    /// Reference clock of the PL011 UART in Hz.
    #[verifier::when_used_as_spec(spec_uart_clk_hz)]
    pub fn uart_clk_hz(self) -> (r: u32)
        ensures
            r == self.spec_uart_clk_hz(),
    {
        match self {
            Board::QemuVirt => 24_000_000,
            Board::PhytiumD2000 => 48_000_000,
        }
    }

    /// Human-readable board name, shown in the boot banner.
    pub fn name(self) -> (r: &'static str)
        ensures
            self == Board::QemuVirt ==> r@ == "QEMU virt"@,
            self == Board::PhytiumD2000 ==> r@ == "Phytium D2000"@,
    {
        match self {
            Board::QemuVirt => "QEMU virt",
            Board::PhytiumD2000 => "Phytium D2000",
        }
    }
}

/// The memory map of every board is sane: the MMIO and RAM addresses are
/// nonzero, the kernel is loaded inside RAM, and the user program sits right
/// after the space reserved for the kernel image.
pub proof fn lemma_board_memory_map(board: Board)
    ensures
        board.spec_uart_base() != 0,
        board.spec_ram_base() != 0,
        board.spec_kernel_base() > board.spec_ram_base(),
        board.spec_app_base() == board.spec_kernel_base() + KERNEL_RESERVED_SIZE,
        board.spec_app_base() > board.spec_kernel_base(),
{
}

} // verus!
