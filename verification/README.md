# amios

A Verus-verified model of the AmiOS AArch64 teaching kernel (QEMU `virt` and
Phytium D2000 boards).

- `src/` — the verified library: board memory maps (`bsp`), the PL011 UART
  driver's register programming, polled output and newline translation
  (`pl011`), PSCI power requests (`psci`), trap decoding (`trap`), the
  system-call table on the kernel side (`syscall`) and the user side (`user`),
  the batch program table (`batch`) and the UEFI loader's arithmetic
  (`loader`). Each public function has a contract; the `lemma_*` proof
  functions state the properties that span several calls.
- `app/` — the kernel around it: volatile MMIO, system-register reads, PSCI
  and `svc` instructions, the trap entry points, program loading and the UEFI
  loader (through the `uefi` crate).
- `tests/` — tests of the library on concrete values.
