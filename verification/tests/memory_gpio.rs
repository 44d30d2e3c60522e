use tuiba_core::memory::gpio::{CONTROL, CS, DATA, DIRECTION, DateTime, Gpio, SCK, SIO, STATUS_24H};

/// Talks to the port the way Nintendo's RTC library does.
struct Game<'a>(&'a mut Gpio);

impl Game<'_> {
    fn pins(&mut self, pins: u8) {
        self.0.write16(DATA, u16::from(pins));
    }

    fn begin(&mut self) {
        self.0.write16(CONTROL, 1);
        self.pins(SCK);
        self.pins(SCK | CS);
        self.0.write16(DIRECTION, 0b0111);
    }

    fn end(&mut self) {
        self.pins(SCK);
    }

    fn send(&mut self, bits: impl Iterator<Item = bool>) {
        for bit in bits {
            let sio = if bit { SIO } else { 0 };
            self.pins(sio | CS);
            self.pins(sio | SCK | CS);
        }
    }

    fn command(&mut self, byte: u8) {
        self.send((0..8).rev().map(|i| byte >> i & 1 != 0));
    }

    fn write(&mut self, byte: u8) {
        self.send((0..8).map(|i| byte >> i & 1 != 0));
    }

    fn read(&mut self) -> u8 {
        self.0.write16(DIRECTION, 0b0101);
        let mut value = 0;
        for i in 0..8 {
            self.pins(CS);
            self.pins(SCK | CS);
            let sio = self.0.read16(DATA).expect("readable") as u8 & SIO;
            value |= (sio >> 1) << i;
        }
        self.0.write16(DIRECTION, 0b0111);
        value
    }

    fn transfer_read(&mut self, command: u8, count: usize) -> Vec<u8> {
        self.begin();
        self.command(command);
        let bytes = (0..count).map(|_| self.read()).collect();
        self.end();
        bytes
    }
}

fn afternoon() -> DateTime {
    DateTime {
        year: 2026,
        month: 9,
        day: 25,
        weekday: 5,
        hour: 21,
        minute: 7,
        second: 42,
    }
}

#[test]
fn reads_the_date_and_time_in_bcd() {
    let mut gpio = Gpio::default();
    gpio.set_clock(afternoon());
    let bytes = Game(&mut gpio).transfer_read(0x65, 7);
    assert_eq!(bytes, [0x26, 0x09, 0x25, 5, 0x21, 0x07, 0x42]);
}

#[test]
fn reads_the_time_alone() {
    let mut gpio = Gpio::default();
    gpio.set_clock(afternoon());
    let bytes = Game(&mut gpio).transfer_read(0x67, 3);
    assert_eq!(bytes, [0x21, 0x07, 0x42]);
}

#[test]
fn status_is_written_and_read_back_and_reset_clears_it() {
    let mut gpio = Gpio::default();
    let mut game = Game(&mut gpio);
    assert_eq!(game.transfer_read(0x63, 1), [STATUS_24H]);

    game.begin();
    game.command(0x60);
    game.end();
    assert_eq!(game.transfer_read(0x63, 1), [0]);

    // Twelve-hour mode: 21:07 reads as 9 with the PM flag.
    game.0.set_clock(afternoon());
    assert_eq!(game.transfer_read(0x67, 1), [0x89]);

    game.begin();
    game.command(0x62);
    game.write(STATUS_24H);
    game.end();
    assert_eq!(game.transfer_read(0x63, 1), [STATUS_24H]);
    assert_eq!(game.transfer_read(0x67, 1), [0x21]);
}

#[test]
fn the_rom_shows_through_until_the_port_is_made_readable() {
    let mut gpio = Gpio::default();
    assert_eq!(gpio.read16(DATA), None);
    gpio.write16(CONTROL, 1);
    assert_eq!(gpio.read16(CONTROL), Some(1));
    gpio.write16(DIRECTION, 0b0101);
    assert_eq!(gpio.read16(DIRECTION), Some(0b0101));
    // Only the pins the game drives take its writes.
    gpio.write16(DATA, 0b1111);
    assert_eq!(gpio.read16(DATA), Some(0b0101));
    assert!(Gpio::covers(0xC4) && Gpio::covers(0xC9) && !Gpio::covers(0xCA));
}

#[test]
fn a_byte_for_another_chip_is_ignored() {
    let mut gpio = Gpio::default();
    gpio.set_clock(afternoon());
    let bytes = Game(&mut gpio).transfer_read(0x15, 2);
    assert_eq!(bytes, [0, 0]);
}
