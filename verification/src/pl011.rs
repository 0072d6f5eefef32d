//! The ARM PrimeCell PL011 UART: register layout, baud-rate divisors, the
//! programming sequence that brings the UART up, polled transmission, and the
//! newline translation of text written to the console.
//!
//! The driver computes; the caller performs the MMIO accesses it asks for.

use vstd::prelude::*;
use vstd::arithmetic::div_mod::{
    lemma_fundamental_div_mod, lemma_fundamental_div_mod_converse, lemma_fundamental_div_mod_converse_div,
    lemma_mod_pos_bound,
};
use vstd::string::StringSliceAdditionalSpecFns;
use crate::bsp::Board;

verus! {

// ── Register offsets (PL011 TRM r1p5), relative to the UART base ──

/// Data register: a write sends a byte.
pub const UARTDR: usize = 0x000;
/// Flag register: UART status bits.
pub const UARTFR: usize = 0x018;
/// Integer baud-rate divisor.
pub const UARTIBRD: usize = 0x024;
/// Fractional baud-rate divisor, in 1/64ths.
pub const UARTFBRD: usize = 0x028;
/// Line control register: data format.
pub const UARTLCR_H: usize = 0x02C;
/// Control register: enables the UART, the transmitter and the receiver.
pub const UARTCR: usize = 0x030;

// ── Register bits ──

/// UARTFR bit 5: the transmit FIFO is full.
pub const UARTFR_TXFF: u32 = 0x20;
/// UARTCR bit 0: UART enable.
pub const UARTCR_UARTEN: u32 = 0x1;
/// UARTCR bit 8: transmit enable.
pub const UARTCR_TXE: u32 = 0x100;
/// UARTCR bit 9: receive enable.
pub const UARTCR_RXE: u32 = 0x200;
/// UARTCR bit 15: CTS hardware flow control (left off: the boards have no CTS line).
pub const UARTCR_CTSEN: u32 = 0x8000;
/// UARTLCR_H bit 1: parity enable.
pub const UARTLCR_H_PEN: u32 = 0x2;
/// UARTLCR_H bit 3: two stop bits.
pub const UARTLCR_H_STP2: u32 = 0x8;
/// UARTLCR_H bit 4: FIFO enable.
pub const UARTLCR_H_FEN: u32 = 0x10;
/// UARTLCR_H bits 5..6 = 0b11: 8 data bits.
pub const UARTLCR_H_WLEN_8BIT: u32 = 0x60;

/// The console baud rate.
pub const BAUD: u32 = 115200;

// ── Baud-rate divisors ──

/// The integer divisor: `clk / (16 * baud)`, rounded down.
pub open spec fn spec_ibrd(clk: int, baud: int) -> int {
    clk / (16 * baud)
}

/// The fractional divisor: the fractional part of `clk / (16 * baud)`, in
/// 1/64ths, rounded to the nearest integer (halves up).
pub open spec fn spec_fbrd(clk: int, baud: int) -> int {
    (64 * (clk % (16 * baud)) + 8 * baud) / (16 * baud)
}

/// The baud rates whose divisors the 32-bit arithmetic of [`baud_divisors`]
/// can compute.
pub open spec fn baud_in_range(baud: u32) -> bool {
    0 < baud && 1032 * baud <= u32::MAX + 64
}

/// The programmed divisor, in 1/64ths, is `4 * clk / baud` rounded to the
/// nearest integer, halves up: `IBRD * 64 + FBRD = (8 * clk + baud) / (2 * baud)`.
pub proof fn lemma_divisor_is_rounded(clk: int, baud: int)
    requires
        clk >= 0,
        baud > 0,
    ensures
        spec_ibrd(clk, baud) * 64 + spec_fbrd(clk, baud) == (8 * clk + baud) / (2 * baud),
        0 <= spec_fbrd(clk, baud) <= 64,
{
    let d = 16 * baud;
    let q = clk / d;
    let r = clk % d;
    lemma_fundamental_div_mod(clk, d);
    lemma_mod_pos_bound(clk, d);
    let n = 64 * r + 8 * baud;
    let f = n / d;
    let rf = n % d;
    lemma_fundamental_div_mod(n, d);
    lemma_mod_pos_bound(n, d);
    let s = 8 * r + baud - 2 * f * baud;
    assert(8 * clk + baud == (64 * q + f) * (2 * baud) + s) by (nonlinear_arith)
        requires
            clk == d * q + r,
            d == 16 * baud,
            s == 8 * r + baud - 2 * f * baud,
    ;
    assert(0 <= s < 2 * baud) by (nonlinear_arith)
        requires
            n == d * f + rf,
            0 <= rf < d,
            d == 16 * baud,
            n == 64 * r + 8 * baud,
            s == 8 * r + baud - 2 * f * baud,
    ;
    lemma_fundamental_div_mod_converse_div(8 * clk + baud, 2 * baud, 64 * q + f, s);
    assert(0 <= f <= 64) by (nonlinear_arith)
        requires
            n == d * f + rf,
            0 <= rf < d,
            0 <= r < d,
            d == 16 * baud,
            baud > 0,
            n == 64 * r + 8 * baud,
    ;
}

/// The integer and fractional baud-rate divisors for a UART clocked at `clk`
/// Hz that should run at `baud` bits per second.
pub fn baud_divisors(clk: u32, baud: u32) -> (r: (u32, u32))
    requires
        baud_in_range(baud),
    ensures
        r.0 == spec_ibrd(clk as int, baud as int),
        r.1 == spec_fbrd(clk as int, baud as int),
        r.1 <= 64,
        r.0 * 64 + r.1 == (8 * clk + baud) / (2 * baud),
{
    proof {
        lemma_divisor_is_rounded(clk as int, baud as int);
        lemma_mod_pos_bound(clk as int, 16 * baud as int);
    }
    let d: u32 = 16 * baud;
    let ibrd: u32 = clk / d;
    let rem: u32 = clk % d;
    assert(rem * 64 + 8 * baud <= u32::MAX) by (nonlinear_arith)
        requires
            rem < d,
            d == 16 * baud,
            1032 * baud <= u32::MAX + 64,
    ;
    let fbrd: u32 = (rem * 64 + 8 * baud) / d;
    (ibrd, fbrd)
}

// ── Bringing the UART up ──

/// One 32-bit MMIO register write: `value` goes to the register at `addr`.
#[derive(Clone, Copy, Debug, PartialEq, Eq, Structural)]
pub struct MmioWrite {
    pub addr: usize,
    pub value: u32,
}

/// Address of the register at `offset` of the board's console UART.
pub open spec fn reg_addr(board: Board, offset: usize) -> usize {
    (board.spec_uart_base() + offset) as usize
}

/// The control-register value that runs the UART: enabled, transmitting and
/// receiving, without hardware flow control.
pub open spec fn spec_cr_running() -> u32 {
    UARTCR_UARTEN | UARTCR_TXE | UARTCR_RXE
}

/// The line-control value for 8 data bits with the FIFOs on.
pub open spec fn spec_lcr_8n1_fifo() -> u32 {
    UARTLCR_H_WLEN_8BIT | UARTLCR_H_FEN
}

/// The register writes that bring the board's console UART up at [`BAUD`]:
/// disable, set the divisors, set the line format, enable.
pub open spec fn init_writes(board: Board) -> Seq<MmioWrite> {
    let clk = board.spec_uart_clk_hz() as int;
    seq![
        MmioWrite { addr: reg_addr(board, UARTCR), value: 0 },
        MmioWrite { addr: reg_addr(board, UARTIBRD), value: spec_ibrd(clk, BAUD as int) as u32 },
        MmioWrite { addr: reg_addr(board, UARTFBRD), value: spec_fbrd(clk, BAUD as int) as u32 },
        MmioWrite { addr: reg_addr(board, UARTLCR_H), value: spec_lcr_8n1_fifo() },
        MmioWrite { addr: reg_addr(board, UARTCR), value: spec_cr_running() },
    ]
}

/// The programming sequence that initialises the board's PL011 console UART:
/// 115200 baud, 8 data bits, no parity, one stop bit, FIFOs enabled,
/// transmitter and receiver on, no CTS flow control. The caller performs the
/// writes in order.
pub fn init(board: Board) -> (r: Vec<MmioWrite>)
    ensures
        r@ == init_writes(board),
        r@.len() == 5,
        r@[0] == (MmioWrite { addr: (board.spec_uart_base() + 0x30) as usize, value: 0 }),
        r@[1] == (MmioWrite {
            addr: (board.spec_uart_base() + 0x24) as usize,
            value: if board == Board::QemuVirt { 13u32 } else { 26u32 },
        }),
        r@[2] == (MmioWrite {
            addr: (board.spec_uart_base() + 0x28) as usize,
            value: if board == Board::QemuVirt { 1u32 } else { 3u32 },
        }),
        r@[3] == (MmioWrite { addr: (board.spec_uart_base() + 0x2c) as usize, value: 0x70 }),
        r@[4] == (MmioWrite { addr: (board.spec_uart_base() + 0x30) as usize, value: 0x301 }),
{
    proof {
        lemma_init_writes_literal(board);
    }
    let base = board.uart_base();
    let (ibrd, fbrd) = baud_divisors(board.uart_clk_hz(), BAUD);
    let mut writes: Vec<MmioWrite> = Vec::new();
    writes.push(MmioWrite { addr: base + UARTCR, value: 0 });
    writes.push(MmioWrite { addr: base + UARTIBRD, value: ibrd });
    writes.push(MmioWrite { addr: base + UARTFBRD, value: fbrd });
    writes.push(MmioWrite { addr: base + UARTLCR_H, value: UARTLCR_H_WLEN_8BIT | UARTLCR_H_FEN });
    writes.push(MmioWrite { addr: base + UARTCR, value: UARTCR_UARTEN | UARTCR_TXE | UARTCR_RXE });
    assert(writes@ =~= init_writes(board));
    writes
}

/// The initialisation sequence, written out: control register cleared, IBRD
/// 13 (QEMU virt, 24 MHz) or 26 (D2000, 48 MHz), FBRD 1 or 3, line control
/// 0x70 (8 data bits, FIFOs on, no parity, one stop bit, no break), control
/// register 0x301 (UART, transmitter and receiver enabled; loopback, flow
/// control and every other control bit clear).
pub proof fn lemma_init_writes_literal(board: Board)
    ensures
        init_writes(board).len() == 5,
        init_writes(board)[0] == (MmioWrite { addr: (board.spec_uart_base() + 0x30) as usize, value: 0 }),
        init_writes(board)[1] == (MmioWrite {
            addr: (board.spec_uart_base() + 0x24) as usize,
            value: if board == Board::QemuVirt { 13u32 } else { 26u32 },
        }),
        init_writes(board)[2] == (MmioWrite {
            addr: (board.spec_uart_base() + 0x28) as usize,
            value: if board == Board::QemuVirt { 1u32 } else { 3u32 },
        }),
        init_writes(board)[3] == (MmioWrite { addr: (board.spec_uart_base() + 0x2c) as usize, value: 0x70 }),
        init_writes(board)[4] == (MmioWrite { addr: (board.spec_uart_base() + 0x30) as usize, value: 0x301 }),
{
    assert(0x1u32 | 0x100u32 | 0x200u32 == 0x301u32) by (bit_vector);
    assert(0x60u32 | 0x10u32 == 0x70u32) by (bit_vector);
    lemma_fundamental_div_mod_converse(24_000_000, 1_843_200, 13, 38_400);
    lemma_fundamental_div_mod_converse(3_379_200, 1_843_200, 1, 1_536_000);
    lemma_fundamental_div_mod_converse(48_000_000, 1_843_200, 26, 76_800);
    lemma_fundamental_div_mod_converse(5_836_800, 1_843_200, 3, 307_200);
}

// ── A model of the registers the sequence programs ──

/// The configuration registers of a PL011.
#[derive(Clone, Copy, Debug, PartialEq, Eq, Structural)]
pub struct Pl011Regs {
    pub cr: u32,
    pub ibrd: u32,
    pub fbrd: u32,
    pub lcr_h: u32,
}

/// The registers after one write to the UART based at `base`.
pub open spec fn apply_write(regs: Pl011Regs, base: usize, w: MmioWrite) -> Pl011Regs {
    if w.addr == base + UARTCR {
        Pl011Regs { cr: w.value, ibrd: regs.ibrd, fbrd: regs.fbrd, lcr_h: regs.lcr_h }
    } else if w.addr == base + UARTIBRD {
        Pl011Regs { cr: regs.cr, ibrd: w.value, fbrd: regs.fbrd, lcr_h: regs.lcr_h }
    } else if w.addr == base + UARTFBRD {
        Pl011Regs { cr: regs.cr, ibrd: regs.ibrd, fbrd: w.value, lcr_h: regs.lcr_h }
    } else if w.addr == base + UARTLCR_H {
        Pl011Regs { cr: regs.cr, ibrd: regs.ibrd, fbrd: regs.fbrd, lcr_h: w.value }
    } else {
        regs
    }
}

/// The registers after a sequence of writes, performed first to last.
pub open spec fn apply_writes(regs: Pl011Regs, base: usize, ws: Seq<MmioWrite>) -> Pl011Regs
    decreases ws.len(),
{
    if ws.len() == 0 {
        regs
    } else {
        apply_writes(apply_write(regs, base, ws[0]), base, ws.drop_first())
    }
}

/// True when the write changes the baud rate or the line format.
pub open spec fn is_config_write(base: usize, w: MmioWrite) -> bool {
    w.addr == base + UARTIBRD || w.addr == base + UARTFBRD || w.addr == base + UARTLCR_H
}

/// UARTCR has the UART enabled.
pub open spec fn uart_enabled(cr: u32) -> bool {
    cr & UARTCR_UARTEN != 0
}

/// The PL011 TRM's rule for reprogramming: every write to the divisors or to
/// the line format happens while the UART is disabled.
pub open spec fn reconfigures_only_when_disabled(regs: Pl011Regs, base: usize, ws: Seq<MmioWrite>) -> bool
    decreases ws.len(),
{
    if ws.len() == 0 {
        true
    } else {
        &&& is_config_write(base, ws[0]) ==> !uart_enabled(regs.cr)
        &&& reconfigures_only_when_disabled(apply_write(regs, base, ws[0]), base, ws.drop_first())
    }
}

/// Number of data bits per character selected by UARTLCR_H.
pub open spec fn word_length(lcr_h: u32) -> int {
    ((lcr_h >> 5u32) & 3u32) + 5
}

/// Whatever state the UART was in, the initialisation sequence reprograms it
/// only while it is disabled, and leaves it enabled for transmit and receive
/// without CTS flow control, at 8 data bits, no parity, one stop bit, FIFOs
/// on, with the divisors for [`BAUD`] at the board's clock.
pub proof fn lemma_init_brings_uart_up(board: Board, regs: Pl011Regs)
    ensures
        reconfigures_only_when_disabled(regs, board.spec_uart_base(), init_writes(board)),
        ({
            let after = apply_writes(regs, board.spec_uart_base(), init_writes(board));
            let clk = board.spec_uart_clk_hz() as int;
            &&& after.ibrd == spec_ibrd(clk, BAUD as int)
            &&& after.fbrd == spec_fbrd(clk, BAUD as int)
            &&& after.cr == 0x301u32
            &&& after.lcr_h == 0x70u32
            &&& uart_enabled(after.cr)
            &&& after.cr & UARTCR_TXE != 0
            &&& after.cr & UARTCR_RXE != 0
            &&& after.cr & UARTCR_CTSEN == 0
            &&& word_length(after.lcr_h) == 8
            &&& after.lcr_h & UARTLCR_H_PEN == 0
            &&& after.lcr_h & UARTLCR_H_STP2 == 0
            &&& after.lcr_h & UARTLCR_H_FEN != 0
        }),
{
    let base = board.spec_uart_base();
    let ws = init_writes(board);
    let clk = board.spec_uart_clk_hz() as int;
    lemma_divisor_is_rounded(clk, BAUD as int);
    assert(spec_ibrd(clk, BAUD as int) <= 26) by (nonlinear_arith)
        requires clk <= 48_000_000;
    let r0 = regs;
    let r1 = apply_write(r0, base, ws[0]);
    let r2 = apply_write(r1, base, ws[1]);
    let r3 = apply_write(r2, base, ws[2]);
    let r4 = apply_write(r3, base, ws[3]);
    let r5 = apply_write(r4, base, ws[4]);
    assert(ws.drop_first().drop_first().drop_first().drop_first().drop_first().len() == 0);
    assert(apply_writes(r5, base, ws.drop_first().drop_first().drop_first().drop_first().drop_first()) == r5);
    assert(apply_writes(r0, base, ws) == r5) by {
        reveal_with_fuel(apply_writes, 6);
    }
    assert(0u32 & 0x1u32 == 0u32) by (bit_vector);
    assert(reconfigures_only_when_disabled(r0, base, ws)) by {
        reveal_with_fuel(reconfigures_only_when_disabled, 6);
    }
    lemma_init_writes_literal(board);
    assert((0x1u32 | 0x100u32 | 0x200u32) & 0x1u32 != 0) by (bit_vector);
    assert((0x1u32 | 0x100u32 | 0x200u32) & 0x100u32 != 0) by (bit_vector);
    assert((0x1u32 | 0x100u32 | 0x200u32) & 0x200u32 != 0) by (bit_vector);
    assert((0x1u32 | 0x100u32 | 0x200u32) & 0x8000u32 == 0) by (bit_vector);
    assert((((0x60u32 | 0x10u32) >> 5u32) & 3u32) + 5 == 8) by (bit_vector);
    assert((0x60u32 | 0x10u32) & 0x2u32 == 0) by (bit_vector);
    assert((0x60u32 | 0x10u32) & 0x8u32 == 0) by (bit_vector);
    assert((0x60u32 | 0x10u32) & 0x10u32 != 0) by (bit_vector);
}

// ── Polled transmission ──

/// What the transmitter asks the caller to do next.
#[derive(Clone, Copy, Debug, PartialEq, Eq, Structural)]
pub enum TxStep {
    /// The transmit FIFO is full: read the flag register again.
    Retry,
    /// The FIFO has room: perform this write to the data register.
    Write(MmioWrite),
}

/// UARTFR reports a full transmit FIFO.
pub open spec fn tx_fifo_full(flags: u32) -> bool {
    flags & UARTFR_TXFF != 0
}

/// Address of the flag register that [`putchar`] polls.
pub fn flag_register(board: Board) -> (r: usize)
    ensures
        r == reg_addr(board, UARTFR),
        r == board.spec_uart_base() + 0x18,
{
    board.uart_base() + UARTFR
}

/// One step of sending the byte `c`: given the flag register just read,
/// either wait for room in the transmit FIFO or write `c` to the data register.
pub fn putchar(board: Board, flags: u32, c: u8) -> (r: TxStep)
    ensures
        tx_fifo_full(flags) ==> r == TxStep::Retry,
        !tx_fifo_full(flags) ==> r == TxStep::Write(
            MmioWrite { addr: reg_addr(board, UARTDR), value: c as u32 },
        ),
        flags & 0x20 != 0 ==> r == TxStep::Retry,
        flags & 0x20 == 0 ==> r == TxStep::Write(MmioWrite { addr: board.spec_uart_base(), value: c as u32 }),
{
    if flags & UARTFR_TXFF != 0 {
        TxStep::Retry
    } else {
        TxStep::Write(MmioWrite { addr: board.uart_base() + UARTDR, value: c as u32 })
    }
}

// ── Text output ──

/// The bytes sent for one byte of text: a line feed goes out as CR LF.
pub open spec fn expand_byte(b: u8) -> Seq<u8> {
    if b == 10 {
        seq![13u8, 10u8]
    } else {
        seq![b]
    }
}

/// The bytes sent for a text: every line feed preceded by a carriage return.
pub open spec fn crlf(s: Seq<u8>) -> Seq<u8>
    decreases s.len(),
{
    if s.len() == 0 {
        Seq::empty()
    } else {
        crlf(s.drop_last()) + expand_byte(s.last())
    }
}

/// Number of line feeds in a text.
pub open spec fn newline_count(s: Seq<u8>) -> nat
    decreases s.len(),
{
    if s.len() == 0 {
        0
    } else {
        newline_count(s.drop_last()) + if s.last() == 10 { 1nat } else { 0nat }
    }
}

/// The console writer.
pub struct Uart;

impl Uart {
    /// The bytes to send, in order, for the string `s`: its UTF-8 bytes with
    /// a carriage return inserted before each line feed, so that a terminal
    /// starts each new line at the left margin.
    pub fn write_str(&self, s: &str) -> (r: Vec<u8>)
        ensures
            r@ == crlf(s.spec_bytes()),
    {
        let bytes = s.as_bytes();
        let mut out: Vec<u8> = Vec::new();
        let mut i: usize = 0;
        while i < bytes.len()
            invariant
                i <= bytes@.len(),
                bytes@ == s.spec_bytes(),
                out@ == crlf(bytes@.subrange(0, i as int)),
            decreases bytes@.len() - i,
        {
            let byte = bytes[i];
            assert(bytes@.subrange(0, i + 1).drop_last() =~= bytes@.subrange(0, i as int));
            if byte == 10 {
                out.push(13);
            }
            out.push(byte);
            i = i + 1;
        }
        assert(bytes@.subrange(0, bytes@.len() as int) =~= bytes@);
        out
    }
}

/// Writing a text in two pieces sends the same bytes as writing it at once.
pub proof fn lemma_crlf_concat(a: Seq<u8>, b: Seq<u8>)
    ensures
        crlf(a + b) == crlf(a) + crlf(b),
    decreases b.len(),
{
    if b.len() == 0 {
        assert(a + b =~= a);
        assert(crlf(b) =~= Seq::<u8>::empty());
        assert(crlf(a) + crlf(b) =~= crlf(a));
    } else {
        lemma_crlf_concat(a, b.drop_last());
        assert((a + b).drop_last() =~= a + b.drop_last());
        assert((a + b).last() == b.last());
        assert(crlf(a + b) =~= crlf(a) + crlf(b));
    }
}

/// One byte more goes out per line feed.
pub proof fn lemma_crlf_len(s: Seq<u8>)
    ensures
        crlf(s).len() == s.len() + newline_count(s),
    decreases s.len(),
{
    if s.len() > 0 {
        lemma_crlf_len(s.drop_last());
    }
}

/// A text without line feeds goes out unchanged.
pub proof fn lemma_crlf_plain_text(s: Seq<u8>)
    requires
        forall|i: int| 0 <= i < s.len() ==> s[i] != 10,
    ensures
        crlf(s) == s,
    decreases s.len(),
{
    if s.len() > 0 {
        lemma_crlf_plain_text(s.drop_last());
        assert(crlf(s) =~= s.drop_last() + seq![s.last()]);
        assert(s.drop_last() + seq![s.last()] =~= s);
    }
}

/// Every line feed that goes out is immediately preceded by a carriage return.
pub proof fn lemma_crlf_line_feed_after_carriage_return(s: Seq<u8>)
    ensures
        forall|j: int| 0 <= j < crlf(s).len() && #[trigger] crlf(s)[j] == 10 ==> j >= 1 && crlf(s)[j - 1] == 13,
    decreases s.len(),
{
    if s.len() > 0 {
        let p = crlf(s.drop_last());
        lemma_crlf_line_feed_after_carriage_return(s.drop_last());
        assert forall|j: int| 0 <= j < crlf(s).len() && #[trigger] crlf(s)[j] == 10 implies j >= 1 && crlf(s)[j - 1] == 13 by {
            if j < p.len() {
                assert(crlf(s)[j] == p[j]);
                assert(p[j] == 10);
                assert(crlf(s)[j - 1] == p[j - 1]);
            }
        }
    }
}

} // verus!
