use pinephone_emu::front::{
    frame_due, led_face, terminal_byte, window_char, KeyInput, LedFace, Rgb,
};
use pinephone_emu::interrupt::Fault;
use pinephone_emu::layout::{
    FB_HEIGHT, FB_SIZE, FB_WIDTH, GICC_BASE, GICC_CTLR, GICC_HPPIR, GICC_RPR, GICD_BASE,
    GICD_ISENABLER, GIC_EOIR, GIC_IAR, LED_BASE, UART0_BASE, UART_RANGE,
};
use pinephone_emu::mmio::{led_write, modelled};
use pinephone_emu::run::{AfterSlice, RunLoop};
use pinephone_emu::state::EmuState;
use pinephone_emu::uart::reply_bytes;

#[test]
fn addresses_fit_together() {
    assert_eq!(GICC_CTLR, GICC_BASE);
    assert_eq!(GIC_IAR, GICC_BASE + 0x0C);
    assert_eq!(GIC_EOIR, GICC_BASE + 0x10);
    assert_eq!(GICC_RPR, GICC_BASE + 0x14);
    assert_eq!(GICC_HPPIR, GICC_BASE + 0x18);
    assert_eq!(GICD_ISENABLER, GICD_BASE + 0x100);
    assert_eq!(FB_SIZE, FB_WIDTH * FB_HEIGHT * 4);
}

#[test]
fn terminal_gets_transmitted_bytes() {
    let mut s = EmuState::new();
    assert_eq!(s.uart_write(UART0_BASE, 0x141), vec!['A']);
    assert_eq!(s.uart_write(UART0_BASE, 0x0A), vec!['\r', '\n']);
    assert_eq!(s.uart_write(UART0_BASE, 0xE9), vec!['\u{e9}']);
    assert!(!s.tx_irq_pending);
    assert_eq!(s.uart_write(UART0_BASE + 4, 0x02), vec![]);
    assert!(s.tx_irq_pending);
    assert_eq!(s.uart_read(UART0_BASE + 8), 0x02);
    assert_eq!(s.uart_read(UART0_BASE + 8), 0x01);
    assert_eq!(s.uart_write(UART0_BASE, 0x42), vec!['B']);
    assert!(s.tx_irq_pending);
    assert_eq!(s.uart_write(UART0_BASE + 4, 0x03), vec![]);
    s.tx_irq_pending = false;
    assert_eq!(s.uart_write(UART0_BASE + 4, 0x02), vec![]);
    assert!(!s.tx_irq_pending);
}

#[test]
fn serial_registers_read_back() {
    let mut s = EmuState::new();
    s.uart_write(UART0_BASE + 0x0C, 0x83);
    assert_eq!(s.uart_read(UART0_BASE + 0x0C), 0x83);
    s.uart_write(UART0_BASE, 0x1A);
    s.uart_write(UART0_BASE + 4, -2);
    assert_eq!(s.uart_read(UART0_BASE + 0x400), 0x1A);
    assert_eq!(s.uart_read(UART0_BASE + 4), 0xFE);
    s.uart_write(UART0_BASE + 0x0C, 0x03);
    s.uart_write(UART0_BASE + 4, 0x05);
    assert_eq!(s.uart_read(UART0_BASE + 4), 0x05);
    assert_eq!((s.uart_dll, s.uart_dlh, s.uart_ier), (0x1A, 0xFE, 0x05));
    assert_eq!(s.uart_read(UART0_BASE + 0x7C), 0x06);
    assert_eq!(s.uart_read(UART0_BASE + 0x10), 0);
}

#[test]
fn received_bytes_are_read_in_order() {
    let mut s = EmuState::new();
    assert_eq!(s.uart_read(UART0_BASE + 0x14), 0x60);
    s.receive(&vec![1, 2]);
    s.receive(&vec![3]);
    assert_eq!(s.uart_read(UART0_BASE + 0x14), 0x61);
    assert_eq!(s.uart_read(UART0_BASE + 8), 0x01);
    s.uart_ier = 0x01;
    s.tx_irq_pending = true;
    assert_eq!(s.uart_read(UART0_BASE + 8), 0x04);
    for expected in [1, 2, 3, 0, 0] {
        assert_eq!(s.uart_read(UART0_BASE), expected);
    }
    assert_eq!(s.uart_read(UART0_BASE + 8), 0x02);
}

#[test]
fn answers_are_cut_to_size() {
    assert_eq!(reply_bytes(0x0102030405060708, 8), vec![8, 7, 6, 5, 4, 3, 2, 1]);
    assert_eq!(reply_bytes(0x0102030405060708, 4), vec![8, 7, 6, 5]);
    assert_eq!(reply_bytes(0x61, 1), vec![0x61]);
    assert_eq!(reply_bytes(0x61, 0), vec![]);
}

#[test]
fn interrupt_lines_are_enabled() {
    let mut s = EmuState::new();
    s.gic_write(GICD_ISENABLER, (1 << 30) | (1 << 27));
    s.gic_write(GICD_ISENABLER + 4, 1);
    s.gic_write(GICD_ISENABLER + 0x7C, -0x8000_0000);
    let mut lines: Vec<u32> = s.interrupts_enabled.iter().copied().collect();
    lines.sort();
    assert_eq!(lines, vec![27, 30, 32, 1023]);
    s.gic_write(GICD_ISENABLER, 1i64 << 32);
    s.gic_write(GICD_ISENABLER, 0);
    s.gic_write(GICD_ISENABLER + 0x80, -1);
    s.gic_write(GICD_ISENABLER - 1, -1);
    assert_eq!(s.interrupts_enabled.len(), 4);
}

#[test]
fn interrupt_controller_is_read_and_written() {
    let mut s = EmuState::new();
    s.gic_write(GICC_CTLR, 2);
    assert!(!s.gic_enabled);
    s.gic_write(GICC_CTLR, 1);
    assert!(s.gic_enabled);
    s.timer_pending = true;
    s.active_irq = 33;
    assert_eq!(s.gic_read(GICC_RPR), 0xFF);
    assert_eq!(s.gic_read(GICC_BASE), 0);
    assert_eq!(s.gic_read(GICC_HPPIR), 33);
    assert_eq!(s.gic_read(GICC_HPPIR), 1023);
    s.timer_pending = true;
    s.gic_write(GIC_EOIR, 33);
    assert_eq!(s.gic_read(GIC_IAR), 1023);
}

#[test]
fn unmodelled_registers_read_back_and_then_change() {
    let mut s = EmuState::new();
    let address = 0x01c20000;
    assert_eq!(s.mmio_read(address), Ok(Some(0)));
    s.mmio_write(address, -1);
    s.mmio_write(address, 0x1_2345_6789);
    for _ in 0..50 {
        assert_eq!(s.mmio_read(address), Ok(Some(0x2345_6789)));
    }
    for _ in 0..50 {
        assert_eq!(s.mmio_read(address), Ok(Some(0xFFFF_FFFF)));
    }
    for _ in 0..20 {
        assert_eq!(s.mmio_read(address), Ok(Some(0)));
    }
    assert_eq!(s.mmio_read(address + 4), Ok(Some(0)));
    s.mmio_write(address, 5);
    assert_eq!(s.mmio_read(address), Ok(Some(5)));
    s.mmio_reads.insert(address, u32::MAX);
    assert_eq!(s.mmio_read(address), Err(Fault::Overflow));
}

#[test]
fn modelled_devices_are_left_alone() {
    let mut s = EmuState::new();
    let edges = [
        (UART0_BASE - 1, false), (UART0_BASE, true), (UART0_BASE + UART_RANGE - 1, true),
        (UART0_BASE + UART_RANGE, false), (GICD_BASE - 1, false), (GICD_BASE, true),
        (GICC_BASE, true), (GICC_BASE + 0xFFF, true), (GICC_BASE + 0x1000, false),
        (LED_BASE, false),
    ];
    for (address, owned) in edges {
        assert_eq!(modelled(address), owned);
        s.mmio_write(address, 7);
        assert_eq!(s.mmio_read(address), Ok(if owned { None } else { Some(7) }));
        assert_eq!(s.mmio_state.contains_key(&address), !owned);
    }
}

#[test]
fn lights_are_switched() {
    assert_eq!(led_write(LED_BASE, 0x1_0000_0005), Some(5));
    assert_eq!(led_write(LED_BASE + 4, 5), None);
    let on = led_face(0b0101, 2);
    assert_eq!(on, LedFace { x: 120, y: 255, fill: Rgb { r: 255, g: 255, b: 0 }, halo: true });
    let off = led_face(0b0101, 3);
    assert_eq!(off, LedFace { x: 160, y: 255, fill: Rgb { r: 0, g: 0, b: 50 }, halo: false });
    assert_eq!(led_face(1, 0).fill, Rgb { r: 255, g: 0, b: 0 });
    assert_eq!(led_face(0, 0).fill, Rgb { r: 50, g: 0, b: 0 });
    assert_eq!(led_face(2, 1).fill, Rgb { r: 0, g: 255, b: 0 });
    assert_eq!(led_face(1, 1).fill, Rgb { r: 0, g: 50, b: 0 });
    assert_eq!(led_face(0, 2).fill, Rgb { r: 50, g: 50, b: 0 });
    assert_eq!(led_face(8, 3).fill, Rgb { r: 0, g: 100, b: 255 });
}

#[test]
fn keys_send_bytes() {
    assert_eq!(terminal_byte(0x03), KeyInput::Quit);
    assert_eq!(terminal_byte(b'\n'), KeyInput::Send(b'\r'));
    assert_eq!(terminal_byte(b'x'), KeyInput::Send(b'x'));
    assert_eq!(window_char('\n'), b'\r');
    assert_eq!(window_char('\r'), b'\r');
    assert_eq!(window_char('q'), b'q');
    assert_eq!(window_char('\u{03}'), 0x03);
    assert_eq!(window_char('\u{43f}'), 0x3f);
    assert_eq!(window_char('\u{10a}'), b'\r');
    assert!(frame_due(33) && !frame_due(32));
}

#[test]
fn loop_runs_in_slices() {
    let mut l = RunLoop::new();
    assert_eq!(l.next_slice(0), Some(0x1000));
    assert_eq!(l.after_slice(0x4000, 150_000), Ok(AfterSlice::Go));
    assert_eq!(l.next_slice(10_000_000_000), Some(0x4000));
    assert_eq!(l.next_slice(10_000_000_001), None);
    assert_eq!(l.after_slice(0x4004, 150_001), Ok(AfterSlice::SyncScreen));
    assert_eq!(l.after_slice(0x4008, 300_001), Ok(AfterSlice::Go));
    assert_eq!(l.after_slice(0x400c, 300_002), Ok(AfterSlice::SyncScreen));
    assert_eq!(l.last_screen_sync, 300_002);
    assert_eq!(l.after_slice(0xFFFFFFF0, 900_000), Ok(AfterSlice::Halt));
    l.last_screen_sync = u64::MAX;
    assert_eq!(l.after_slice(0, 0), Err(Fault::Overflow));
}
