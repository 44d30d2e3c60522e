use tuiba_core::bios::{call, service};
use tuiba_core::memory::{base, Bus, Cartridge, Memory};
use tuiba_core::Cpu;

const SRC: u32 = base::EWRAM + 0x1000;
const DST: u32 = base::EWRAM + 0x2000;

/// A bus with `data` at `SRC`, after BIOS call `number` from there to `DST`.
fn called(number: u8, data: &[u8]) -> Bus {
    let mut bus = Bus::new(Cartridge::from_bytes(vec![0; 0xC0]).unwrap());
    for (i, &byte) in data.iter().enumerate() {
        bus.write8(SRC + i as u32, byte);
    }
    let mut cpu = Cpu::new();
    cpu.regs.set(0, SRC);
    cpu.regs.set(1, DST);
    service(number, &mut cpu, &mut bus);
    bus
}

#[test]
fn lz77_stops_at_the_declared_size() {
    // Size 3: the literal 'A', then a reference of length 3 at distance 1.
    let data = [0x10, 3, 0, 0, 0x40, b'A', 0x00, 0x00];
    let mut bus = called(call::LZ77_UNCOMP_WRAM, &data);
    for i in 0..3 {
        assert_eq!(bus.read8(DST + i), b'A');
    }
    assert_eq!(bus.read8(DST + 3), 0, "nothing behind the buffer");

    // Size 2 by halfwords: the second halfword stays.
    let data = [0x10, 2, 0, 0, 0x40, b'A', 0x00, 0x00];
    let mut bus = called(call::LZ77_UNCOMP_VRAM, &data);
    assert_eq!(bus.read16(DST), 0x4141);
    assert_eq!(bus.read16(DST + 2), 0);
}

#[test]
fn run_lengths_stop_at_the_declared_size() {
    // Size 2: a run of three.
    let data = [0x30, 2, 0, 0, 0x80, b'B', 0, 0];
    let mut bus = called(call::RL_UNCOMP_WRAM, &data);
    assert_eq!(bus.read16(DST), 0x4242);
    assert_eq!(bus.read8(DST + 2), 0);
}
