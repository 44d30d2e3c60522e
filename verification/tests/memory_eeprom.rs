use tuiba_core::memory::eeprom::{Eeprom, MAX_SIZE, SMALL_SIZE};

fn send(eeprom: &mut Eeprom, bits: &str) {
    for c in bits.chars().filter(|c| !c.is_whitespace()) {
        eeprom.write(u16::from(c == '1'));
    }
}

fn address(bits: u8, value: u16) -> String {
    (0..bits)
        .rev()
        .map(|i| if value >> i & 1 == 1 { '1' } else { '0' })
        .collect()
}

fn write_block(eeprom: &mut Eeprom, bits: u8, address_value: u16, data: u64) {
    send(eeprom, "10");
    send(eeprom, &address(bits, address_value));
    send(eeprom, &format!("{data:064b}"));
    send(eeprom, "0");
}

fn read_block(eeprom: &mut Eeprom, bits: u8, address_value: u16) -> u64 {
    send(eeprom, "11");
    send(eeprom, &address(bits, address_value));
    send(eeprom, "0");
    for _ in 0..4 {
        assert_eq!(eeprom.read(), 0, "dummy bits");
    }
    (0..64).fold(0, |acc, _| (acc << 1) | u64::from(eeprom.read()))
}

#[test]
fn idle_reads_ready() {
    let mut eeprom = Eeprom::new();
    assert_eq!(eeprom.read(), 1);
}

#[test]
fn write_then_read_large_chip() {
    let mut eeprom = Eeprom::new();
    eeprom.hint_transfer_len(81);
    assert_eq!(eeprom.size(), MAX_SIZE);
    write_block(&mut eeprom, 14, 0x3FF, 0x0123_4567_89AB_CDEF);
    assert_eq!(
        &eeprom.data()[0x1FF8..],
        &0x0123_4567_89AB_CDEF_u64.to_be_bytes()
    );
    assert_eq!(eeprom.read(), 1, "ready after write");
    assert_eq!(read_block(&mut eeprom, 14, 0x3FF), 0x0123_4567_89AB_CDEF);
    assert_eq!(eeprom.read(), 1, "ready after reply");
    assert_eq!(read_block(&mut eeprom, 14, 0), u64::MAX, "erased block");
}

#[test]
fn small_chip_uses_six_bit_addresses() {
    let mut eeprom = Eeprom::new();
    eeprom.hint_transfer_len(68); // a reply fetch: uninformative
    assert_eq!(eeprom.address_bits, None);
    eeprom.hint_transfer_len(9);
    assert_eq!(eeprom.size(), SMALL_SIZE);
    eeprom.hint_transfer_len(17); // later hints don't flip the size
    assert_eq!(eeprom.size(), SMALL_SIZE);

    write_block(&mut eeprom, 6, 63, 0xDEAD_BEEF_0000_0001);
    assert_eq!(read_block(&mut eeprom, 6, 63), 0xDEAD_BEEF_0000_0001);
    assert_eq!(eeprom.data().len(), SMALL_SIZE);
}

#[test]
fn stray_zero_bits_do_not_start_a_command() {
    let mut eeprom = Eeprom::new();
    eeprom.hint_transfer_len(17);
    send(&mut eeprom, "00 01");
    write_block(&mut eeprom, 14, 1, 42);
    assert_eq!(read_block(&mut eeprom, 14, 1), 42);
}

#[test]
fn save_file_length_sets_size() {
    let mut eeprom = Eeprom::new();
    eeprom.load(&[0x11; SMALL_SIZE]);
    assert_eq!(eeprom.size(), SMALL_SIZE);
    assert_eq!(read_block(&mut eeprom, 6, 2), 0x1111_1111_1111_1111);

    let mut large = Eeprom::new();
    large.load(&[0x22; MAX_SIZE]);
    assert_eq!(large.size(), MAX_SIZE);
    assert_eq!(read_block(&mut large, 14, 1023), 0x2222_2222_2222_2222);
}
