use tuiba_core::memory::reg;
use tuiba_core::memory::interrupt::Interrupt;
use tuiba_core::memory::io::{IoRegisters, KEYINPUT_ALL_RELEASED};

#[test]
fn stores_and_reads_back() {
    let mut io = IoRegisters::new();
    io.write16(reg::DISPCNT, 0x0403);
    assert_eq!(io.read16(reg::DISPCNT), 0x0403);
    assert_eq!(io.read8(reg::DISPCNT), 0x03);
    assert_eq!(io.read8(reg::DISPCNT + 1), 0x04);
}

#[test]
fn word_access_spans_two_registers() {
    let mut io = IoRegisters::new();
    io.write32(reg::IE, 0x0002_0001);
    assert_eq!(io.read16(reg::IE), 0x0001);
    assert_eq!(
        io.read16(reg::IF),
        0x0000,
        "IF write-to-clear must not set bits"
    );
    io.set_raw16(reg::IF, 0x0002);
    assert_eq!(io.read32(reg::IE), 0x0002_0001);
}

#[test]
fn byte_write_merges_into_halfword() {
    let mut io = IoRegisters::new();
    io.write16(reg::BG0CNT, 0x1234);
    io.write8(reg::BG0CNT + 1, 0xAB);
    assert_eq!(io.read16(reg::BG0CNT), 0xAB34);
}

#[test]
fn keyinput_is_live_and_read_only() {
    let mut io = IoRegisters::new();
    assert_eq!(io.read16(reg::KEYINPUT), KEYINPUT_ALL_RELEASED);
    io.write16(reg::KEYINPUT, 0);
    assert_eq!(io.read16(reg::KEYINPUT), KEYINPUT_ALL_RELEASED);
    io.keyinput = 0x03FE;
    assert_eq!(io.read16(reg::KEYINPUT), 0x03FE);
}

#[test]
fn vcount_is_read_only_but_settable_by_hardware() {
    let mut io = IoRegisters::new();
    io.write16(reg::VCOUNT, 99);
    assert_eq!(io.read16(reg::VCOUNT), 0);
    io.set_raw16(reg::VCOUNT, 99);
    assert_eq!(io.read16(reg::VCOUNT), 99);
}

#[test]
fn if_is_write_to_clear() {
    let mut io = IoRegisters::new();
    io.set_raw16(reg::IF, 0b0111);
    io.write16(reg::IF, 0b0010);
    assert_eq!(io.read16(reg::IF), 0b0101);
    io.write8(reg::IF, 0b0001);
    assert_eq!(io.read16(reg::IF), 0b0100);
}

#[test]
fn dispstat_flags_survive_software_writes() {
    let mut io = IoRegisters::new();
    io.set_raw16(reg::DISPSTAT, 0b011);
    io.write16(reg::DISPSTAT, 0x1F38);
    assert_eq!(io.read16(reg::DISPSTAT), 0x1F3B);
}

#[test]
fn interrupt_request_and_pending() {
    let mut io = IoRegisters::new();
    io.request_interrupt(Interrupt::VBlank);
    io.request_interrupt(Interrupt::Timer1);
    assert_eq!(io.read16(reg::IF), 0b1_0001);
    assert!(!io.irq_pending(), "IME off");
    io.write16(reg::IME, 1);
    assert!(!io.irq_pending(), "IE empty");
    io.write16(reg::IE, Interrupt::Timer1.mask());
    assert!(io.irq_pending());
    io.write16(reg::IF, Interrupt::Timer1.mask());
    assert!(!io.irq_pending(), "acknowledged");
}

#[test]
fn haltcnt_requests_halt() {
    let mut io = IoRegisters::new();
    io.write8(reg::HALTCNT, 0);
    assert!(io.halt_requested);
    io.halt_requested = false;
    io.write16(reg::POSTFLG, 0x0001);
    assert!(
        !io.halt_requested,
        "halfword write to POSTFLG is not a halt"
    );
}

#[test]
fn dma_registers_route_to_channels() {
    let mut io = IoRegisters::new();
    io.write32(reg::DMA0SAD + 12 * 3, 0x0800_1234); // DMA3SAD
    io.write32(reg::DMA0SAD + 12 * 3 + 4, 0x0600_0000); // DMA3DAD
    io.write16(reg::DMA0SAD + 12 * 3 + 8, 0x100); // DMA3CNT_L
    assert_eq!(io.dma.channels[3].source, 0x0800_1234);
    assert_eq!(io.dma.channels[3].dest, 0x0600_0000);
    assert_eq!(io.dma.channels[3].count, 0x100);
    assert_eq!(io.read32(reg::DMA0SAD + 12 * 3), 0, "SAD is write-only");
    io.write16(reg::DMA3CNT_H, 0x8400);
    assert_eq!(io.read16(reg::DMA3CNT_H), 0x8400);
    assert_eq!(io.dma.take_pending(), 0b1000);
}

#[test]
fn timer_registers_route_to_timers() {
    let mut io = IoRegisters::new();
    io.write16(reg::TM0CNT_L, 0xFF00);
    assert_eq!(
        io.read16(reg::TM0CNT_L),
        0,
        "reload is not visible until enabled"
    );
    io.write16(reg::TM0CNT_H, 0x80);
    assert_eq!(io.read16(reg::TM0CNT_L), 0xFF00);
    assert_eq!(io.read16(reg::TM0CNT_H), 0x80);
    io.write32(reg::TM3CNT_H - 2, 0x00C0_1234); // TM3CNT_L=0x1234, TM3CNT_H=0xC0
    assert_eq!(io.read16(reg::TM3CNT_H), 0xC0);
    assert_eq!(io.timers.counter(3), 0x1234);
}

#[test]
fn out_of_block_offsets_are_inert() {
    let mut io = IoRegisters::new();
    io.write16(0x800, 0xFFFF);
    assert_eq!(io.read16(0x800), 0);
}
