//! A verified model of the AmiOS AArch64 kernel: board constants, the PL011
//! UART driver's register programming, trap and system-call decoding, the
//! batch application loader and the UEFI loader's arithmetic.

pub mod bsp;
pub mod pl011;
pub mod psci;
pub mod trap;
pub mod syscall;
pub mod user;
pub mod batch;
pub mod loader;
