use amios::batch::{AppInfo, AppLoad, AppManager};
use amios::bsp::{Board, KERNEL_RESERVED_SIZE};
use amios::loader::{exception_level, page_count, KERNEL_LOAD_ADDR};
use amios::pl011::{
    baud_divisors, flag_register, init, putchar, MmioWrite, TxStep, Uart, BAUD, UARTCR,
    UARTDR, UARTFBRD, UARTFR, UARTIBRD, UARTLCR_H,
};
use amios::psci::{system_off, system_reset, Conduit, PSCI_SYSTEM_OFF, PSCI_SYSTEM_RESET};
use amios::syscall::{is_text, sys_write as kernel_sys_write, syscall, SyscallRequest};
use amios::trap::{exception_class, trap_handler, TrapAction, TrapContext, EC_SVC64};
use amios::user::{sys_exit, sys_shutdown, sys_write};

// ── Baud-rate divisors and the QEMU virt memory map ──

#[test]
fn qemu_virt_uart_baud_rate_divisors() {
    const CLK: u32 = 24_000_000;
    const BAUD_RATE: u32 = 115200;
    let (ibrd, fbrd) = baud_divisors(CLK, BAUD_RATE);
    assert_eq!(ibrd, 13, "QEMU virt IBRD 应为 13");
    assert_eq!(fbrd, 1, "QEMU virt FBRD 应为 1");
}

#[test]
fn phytium_d2000_uart_baud_rate_divisors() {
    const CLK: u32 = 48_000_000;
    const BAUD_RATE: u32 = 115200;
    let (ibrd, fbrd) = baud_divisors(CLK, BAUD_RATE);
    assert_eq!(ibrd, 26, "飞腾 D2000 IBRD 应为 26");
    assert_eq!(fbrd, 3, "飞腾 D2000 FBRD 应为 3");
}

#[test]
fn qemu_virt_mmio_addresses_are_nonzero() {
    let board = Board::QemuVirt;
    let uart0_base = board.uart_base();
    let ram_base = board.ram_base();
    let kernel_base = board.kernel_base();
    assert_eq!(uart0_base, 0x0900_0000);
    assert_eq!(ram_base, 0x4000_0000);
    assert_eq!(kernel_base, 0x4008_0000);
    assert_ne!(uart0_base, 0);
    assert_ne!(ram_base, 0);
    assert!(kernel_base > ram_base, "内核加载地址应在 RAM 起始地址之后");
}

// ── Board support ──

#[test]
fn phytium_d2000_memory_map() {
    let board = Board::PhytiumD2000;
    assert_eq!(board.uart_base(), 0x2800_1000);
    assert_eq!(board.ram_base(), 0x8000_0000);
    assert_eq!(board.kernel_base(), 0x8008_0000);
    assert_eq!(board.app_base(), 0x8010_0000);
    assert_eq!(board.uart_clk_hz(), 48_000_000);
    assert!(board.kernel_base() > board.ram_base());
    assert_eq!(board.app_base(), board.kernel_base() + KERNEL_RESERVED_SIZE);
}

#[test]
fn board_names_and_clocks() {
    assert_eq!(Board::QemuVirt.name(), "QEMU virt");
    assert_eq!(Board::PhytiumD2000.name(), "Phytium D2000");
    assert_eq!(Board::QemuVirt.uart_clk_hz(), 24_000_000);
    assert_eq!(Board::QemuVirt.app_base(), Board::QemuVirt.kernel_base() + KERNEL_RESERVED_SIZE);
}

// ── Baud-rate divisors ──

#[test]
fn divisor_is_rounded_to_nearest_64th() {
    for &(clk, baud) in &[(24_000_000u32, 115200u32), (48_000_000, 115200), (3_686_400, 9600), (7_372_800, 115200), (1_000_000, 3)] {
        let (ibrd, fbrd) = baud_divisors(clk, baud);
        let combined = ibrd as u64 * 64 + fbrd as u64;
        assert_eq!(combined, (8 * clk as u64 + baud as u64) / (2 * baud as u64));
        assert!(fbrd <= 64);
    }
    // An exact divisor has no fractional part.
    assert_eq!(baud_divisors(3_686_400, 9600), (24, 0));
}

#[test]
fn fractional_divisor_can_round_up_to_64() {
    // 16 * baud = 1600; the remainder 1599 is 63.96/64 of a divisor step.
    assert_eq!(baud_divisors(1600 * 5 + 1599, 100), (5, 64));
}

// ── UART initialisation ──

#[test]
fn init_sequence_for_qemu_virt() {
    let base = 0x0900_0000usize;
    let writes = init(Board::QemuVirt);
    assert_eq!(
        writes,
        vec![
            MmioWrite { addr: base + UARTCR, value: 0 },
            MmioWrite { addr: base + UARTIBRD, value: 13 },
            MmioWrite { addr: base + UARTFBRD, value: 1 },
            MmioWrite { addr: base + UARTLCR_H, value: 0x70 },
            MmioWrite { addr: base + UARTCR, value: 0x301 },
        ]
    );
}

#[test]
fn init_sequence_for_phytium_d2000_disables_first() {
    let base = 0x2800_1000usize;
    let writes = init(Board::PhytiumD2000);
    assert_eq!(writes.len(), 5);
    assert_eq!(writes[0], MmioWrite { addr: base + UARTCR, value: 0 });
    assert_eq!(writes[1].value, 26);
    assert_eq!(writes[2].value, 3);
    assert_eq!(writes[4].value & 0x8000, 0, "CTS flow control stays off");
    assert_eq!(BAUD, 115200);
}

// ── Polled transmission ──

#[test]
fn putchar_waits_while_fifo_full() {
    assert_eq!(putchar(Board::QemuVirt, 0x20, b'A'), TxStep::Retry);
    assert_eq!(putchar(Board::QemuVirt, 0xff, b'A'), TxStep::Retry);
}

#[test]
fn putchar_writes_data_register_when_room() {
    assert_eq!(
        putchar(Board::QemuVirt, 0x0, b'A'),
        TxStep::Write(MmioWrite { addr: 0x0900_0000 + UARTDR, value: 0x41 })
    );
    // Busy (bit 3) and other flags do not hold the byte back.
    assert_eq!(
        putchar(Board::PhytiumD2000, 0x98, 0xff),
        TxStep::Write(MmioWrite { addr: 0x2800_1000, value: 0xff })
    );
    assert_eq!(flag_register(Board::QemuVirt), 0x0900_0000 + UARTFR);
}

// ── Text output ──

#[test]
fn write_str_inserts_carriage_returns() {
    let u = Uart;
    assert_eq!(u.write_str("hi\nthere\n"), b"hi\r\nthere\r\n".to_vec());
    assert_eq!(u.write_str("\n\n"), b"\r\n\r\n".to_vec());
    assert_eq!(u.write_str(""), Vec::<u8>::new());
}

#[test]
fn write_str_keeps_plain_text() {
    let u = Uart;
    assert_eq!(u.write_str("AmiOS"), b"AmiOS".to_vec());
    assert_eq!(u.write_str("飞腾"), "飞腾".as_bytes().to_vec());
    assert_eq!(u.write_str("a\rb"), b"a\rb".to_vec());
}

#[test]
fn write_str_in_pieces_sends_the_same_bytes() {
    let u = Uart;
    let mut pieces = u.write_str("line one\nli");
    pieces.extend(u.write_str("ne two\n"));
    assert_eq!(pieces, u.write_str("line one\nline two\n"));
    let whole = u.write_str("x\ny\nz");
    assert_eq!(whole.len(), 5 + 2);
}

// ── PSCI ──

#[test]
fn psci_calls_per_board() {
    let off = system_off(Board::QemuVirt);
    assert_eq!(off.conduit, Conduit::Hvc);
    assert_eq!(off.function_id, 0x8400_0008);
    let reset = system_reset(Board::PhytiumD2000);
    assert_eq!(reset.conduit, Conduit::Smc);
    assert_eq!(reset.function_id, 0x8400_0009);
    assert_eq!(PSCI_SYSTEM_OFF + 1, PSCI_SYSTEM_RESET);
}

// ── Traps ──

fn frame() -> TrapContext {
    let mut x = [0usize; 31];
    for (i, r) in x.iter_mut().enumerate() {
        *r = 100 + i;
    }
    TrapContext { x, sp: 0x4020_0000, elr: 0x4010_0040, spsr: 0x3c5 }
}

#[test]
fn exception_class_extracts_bits_31_to_26() {
    assert_eq!(exception_class(0x5600_0000), EC_SVC64);
    assert_eq!(exception_class(0x9200_0046), 0x24);
    assert_eq!(exception_class(0xffff_ffff_ffff_ffff), 0x3f);
    assert_eq!(exception_class(0x03ff_ffff), 0);
}

#[test]
fn svc_trap_becomes_syscall() {
    let ctx = frame();
    match trap_handler(&ctx, 0x5600_0000) {
        TrapAction::Syscall { id, args } => {
            assert_eq!(id, 108);
            assert_eq!(args, [100, 101, 102]);
        }
        other => panic!("unexpected {:?}", other),
    }
}

#[test]
fn other_trap_is_fatal() {
    let ctx = frame();
    match trap_handler(&ctx, 0x9200_0046) {
        TrapAction::Fatal { ec, esr, elr, spsr } => {
            assert_eq!(ec, 0x24);
            assert_eq!(esr, 0x9200_0046);
            assert_eq!(elr, 0x4010_0040);
            assert_eq!(spsr, 0x3c5);
        }
        other => panic!("unexpected {:?}", other),
    }
}

#[test]
fn syscall_result_goes_to_x0_only() {
    let mut ctx = frame();
    ctx.set_syscall_return(-1);
    assert_eq!(ctx.x[0], usize::MAX);
    assert_eq!(ctx.x[0] as isize, -1);
    for i in 1..31 {
        assert_eq!(ctx.x[i], 100 + i);
    }
    assert_eq!((ctx.sp, ctx.elr, ctx.spsr), (0x4020_0000, 0x4010_0040, 0x3c5));
    ctx.set_syscall_return(5);
    assert_eq!(ctx.x[0], 5);
}

// ── System calls ──

#[test]
fn syscall_table() {
    assert_eq!(syscall(64, [1, 0x1000, 5]), SyscallRequest::Write { fd: 1, buf: 0x1000, len: 5 });
    assert_eq!(syscall(64, [2, 0x1000, 5]), SyscallRequest::Write { fd: 2, buf: 0x1000, len: 5 });
    assert_eq!(syscall(64, [0, 0x1000, 5]), SyscallRequest::InvalidFd { fd: 0 });
    assert_eq!(syscall(64, [3, 0x1000, 5]), SyscallRequest::InvalidFd { fd: 3 });
    assert_eq!(syscall(93, [7, 0, 0]), SyscallRequest::Exit { code: 7 });
    assert_eq!(syscall(93, [usize::MAX, 0, 0]), SyscallRequest::Exit { code: -1 });
    assert_eq!(syscall(200, [0, 0, 0]), SyscallRequest::Shutdown);
    assert_eq!(syscall(57, [0, 0, 0]), SyscallRequest::Unknown { id: 57 });
}

#[test]
fn immediate_replies() {
    assert_eq!(SyscallRequest::Unknown { id: 1 }.immediate_reply(), Some(-1));
    assert_eq!(SyscallRequest::InvalidFd { fd: 9 }.immediate_reply(), Some(-1));
    assert_eq!(SyscallRequest::Shutdown.immediate_reply(), None);
    assert_eq!(SyscallRequest::Exit { code: 0 }.immediate_reply(), None);
    assert_eq!(SyscallRequest::Write { fd: 1, buf: 0, len: 0 }.immediate_reply(), None);
}

#[test]
fn kernel_write_checks_fd_and_utf8() {
    assert_eq!(kernel_sys_write(1, b"hello\n"), 6);
    assert_eq!(kernel_sys_write(2, "飞腾".as_bytes()), 6);
    assert_eq!(kernel_sys_write(1, b""), 0);
    assert_eq!(kernel_sys_write(0, b"hello"), -1);
    assert_eq!(kernel_sys_write(3, b"hello"), -1);
    assert_eq!(kernel_sys_write(1, &[0xff, 0x41]), -1);
}

#[test]
fn text_is_well_formed_utf8() {
    assert!(is_text(b"plain ascii"));
    assert!(is_text("\u{10FFFF}".as_bytes()));
    assert!(!is_text(&[0xc0, 0x80]), "overlong encoding");
    assert!(!is_text(&[0xed, 0xa0, 0x80]), "surrogate");
    assert!(!is_text(&[0xe9, 0xa3]), "truncated sequence");
    assert!(!is_text(&[0xf4, 0x90, 0x80, 0x80]), "above U+10FFFF");
}

#[test]
fn user_calls_reach_the_kernel_unchanged() {
    let w = sys_write(1, 0x4010_2000, 12);
    assert_eq!(w.id, 64);
    assert_eq!(w.args, [1, 0x4010_2000, 12]);
    assert_eq!(syscall(w.id, w.args), SyscallRequest::Write { fd: 1, buf: 0x4010_2000, len: 12 });
    let bad = sys_write(7, 0, 0);
    assert_eq!(syscall(bad.id, bad.args), SyscallRequest::InvalidFd { fd: 7 });
    for code in [0, 1, -1, i32::MIN, i32::MAX] {
        let e = sys_exit(code);
        assert_eq!(e.id, 93);
        assert_eq!(syscall(e.id, e.args), SyscallRequest::Exit { code });
    }
    let s = sys_shutdown();
    assert_eq!((s.id, s.args), (200, [0, 0, 0]));
    assert_eq!(syscall(s.id, s.args), SyscallRequest::Shutdown);
}

// ── Batch system ──

fn apps() -> AppManager {
    AppManager::new(vec![
        AppInfo { name: "hello_world".to_string(), size: 4096 },
        AppInfo { name: "store_fault".to_string(), size: 1234 },
        AppInfo { name: "power_off".to_string(), size: 77 },
    ])
}

#[test]
fn app_table() {
    let m = apps();
    assert_eq!(m.app_count(), 3);
    assert_eq!(m.app(1).name, "store_fault");
    assert_eq!(m.app(2).size, 77);
    assert_eq!(AppManager::new(Vec::new()).app_count(), 0);
}

#[test]
fn load_plan_targets_the_link_address() {
    let m = apps();
    assert_eq!(m.load_plan(Board::QemuVirt, 0), AppLoad { index: 0, dst: 0x4010_0000, len: 4096 });
    assert_eq!(m.load_plan(Board::PhytiumD2000, 1), AppLoad { index: 1, dst: 0x8010_0000, len: 1234 });
}

// ── UEFI loader ──

#[test]
fn loader_reserves_image_and_stack() {
    assert_eq!(page_count(0), 128);
    assert_eq!(page_count(1), 129);
    assert_eq!(page_count(4096), 129);
    assert_eq!(page_count(4097), 130);
    assert_eq!(page_count(1_000_000), (1_000_000 + 0x80000 + 0xfff) / 0x1000);
    assert_eq!(KERNEL_LOAD_ADDR as usize, Board::PhytiumD2000.kernel_base());
}

#[test]
fn current_el_field() {
    assert_eq!(exception_level(0b1000), 2);
    assert_eq!(exception_level(0b0100), 1);
    assert_eq!(exception_level(0b1100), 3);
    assert_eq!(exception_level(0xffff_fff3), 0);
}

#[test]
fn syscall_round_trip_through_the_trap_frame() {
    let frame_in = sys_write(1, 0x4010_2000, 12);
    let mut x = [0usize; 31];
    x[8] = frame_in.id;
    x[0] = frame_in.args[0];
    x[1] = frame_in.args[1];
    x[2] = frame_in.args[2];
    x[30] = 0x4010_0010;
    let mut ctx = TrapContext { x, sp: 0, elr: 0x4010_0008, spsr: 0 };
    let (id, args) = match trap_handler(&ctx, 0x5600_0000) {
        TrapAction::Syscall { id, args } => (id, args),
        other => panic!("unexpected {:?}", other),
    };
    let request = syscall(id, args);
    assert_eq!(request, SyscallRequest::Write { fd: 1, buf: 0x4010_2000, len: 12 });
    let ret = kernel_sys_write(1, b"hello world\n");
    ctx.set_syscall_return(ret);
    assert_eq!(ctx.x[0] as isize, 12);
    assert_eq!(ctx.x[30], 0x4010_0010);
    ctx.set_syscall_return(-1);
    assert_eq!(ctx.x[0] as isize, -1);
}
