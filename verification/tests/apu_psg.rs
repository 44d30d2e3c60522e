use tuiba_core::apu::psg::{Noise, Square, Wave};

#[test]
fn square_follows_its_duty_cycle() {
    let mut sq = Square::default();
    // 50% duty, full volume, no envelope.
    sq.write_length_envelope(0xF000 | (2 << 6));
    sq.write_frequency_control(0x8000 | 2047); // period 16 cycles
    assert!(sq.active());
    let mut levels = Vec::new();
    for _ in 0..8 {
        levels.push(sq.output().unwrap());
        sq.tick(16);
    }
    assert_eq!(levels, [15, 0, 0, 0, 0, 15, 15, 15]);
    // Big jumps land on the right phase.
    sq.tick(16 * 8 * 3 + 16);
    assert_eq!(sq.output(), Some(0));
}

#[test]
fn square_dac_off_and_length_expiry() {
    let mut sq = Square::default();
    sq.write_length_envelope(0);
    sq.write_frequency_control(0x8000);
    assert_eq!(sq.output(), None, "DAC off");
    assert!(!sq.active());

    // Length 62 -> counter 2, length enable: silent after two clocks.
    sq.write_length_envelope(0xF000 | 0x3E); // length 62
    sq.write_frequency_control(0x8000 | 0x4000);
    assert!(sq.active());
    sq.clock_length();
    assert!(sq.active());
    sq.clock_length();
    assert!(!sq.active());
    assert_eq!(sq.output(), Some(0), "DAC still on, channel silent");
}

#[test]
fn envelope_steps_volume() {
    let mut sq = Square::default();
    // Start at 3, increasing, period 2.
    sq.write_length_envelope(0x3000 | (1 << 11) | (2 << 8) | (3 << 6));
    sq.write_frequency_control(0x8000);
    assert_eq!(sq.envelope.volume, 3);
    sq.clock_envelope();
    assert_eq!(sq.envelope.volume, 3);
    sq.clock_envelope();
    assert_eq!(sq.envelope.volume, 4);
    for _ in 0..40 {
        sq.clock_envelope();
    }
    assert_eq!(sq.envelope.volume, 15, "saturates");
}

#[test]
fn sweep_raises_frequency_and_overflows() {
    let mut sq = Square::default();
    sq.write_sweep((1 << 4) | 1); // period 1, shift 1, increase
    sq.write_length_envelope(0xF000);
    sq.write_frequency_control(0x8000 | 512);
    sq.clock_sweep();
    assert_eq!(sq.frequency, 512 + 256);
    assert!(sq.active());
    sq.clock_sweep();
    assert_eq!(sq.frequency, 768 + 384);
    assert!(sq.active());
    sq.clock_sweep();
    // 1152 + 576 = 1728 fits, but the following step would not: the
    // channel switches off with the last valid frequency.
    assert_eq!(sq.frequency, 1728);
    assert!(!sq.active());
}

#[test]
fn wave_plays_ram_from_the_selected_bank() {
    let mut wave = Wave::default();
    // Bank 1 selected for playback: CPU writes go to bank 0. Write a
    // ramp there, then switch playback to bank 0.
    wave.write_mode(1 << 6);
    for i in 0..8u16 {
        wave.write_ram(usize::from(i * 2), 0xF0F0 - i * 0x1010);
    }
    assert_eq!(wave.read_ram(2), 0xE0E0);
    wave.write_mode(1 << 7); // play, bank 0
    assert_eq!(wave.read_ram(0), 0, "bank 1 is what the CPU sees now");
    wave.write_length_volume(1 << 13); // 100%
    wave.write_frequency_control(0x8000 | 2047); // period 8
    let mut levels = Vec::new();
    for _ in 0..4 {
        levels.push(wave.output().unwrap());
        wave.tick(8);
    }
    // Bytes are F0, F0, E0, E0 ... high nibble first.
    assert_eq!(levels, [15, 0, 15, 0]);
    // Now at sample 4: the high nibble of the third byte, 0xE.
    assert_eq!(wave.output(), Some(14));
    wave.write_length_volume(2 << 13); // 50%
    assert_eq!(wave.output(), Some(7));
    wave.write_length_volume((1 << 13) | (1 << 15)); // forced 75%
    assert_eq!(wave.output(), Some(10));
    wave.write_mode(0);
    assert_eq!(wave.output(), None, "DAC off");
}

#[test]
fn noise_shift_register_sequences() {
    let mut noise = Noise::default();
    noise.write_length_envelope(0xF000);
    noise.write_control(0x8000 | (1 << 3)); // 7-bit, ratio 0, shift 0
    assert_eq!(noise.period(), 32);
    assert_eq!(noise.output(), Some(0), "all ones: bit 0 set");
    // The 7-bit sequence repeats every 127 steps.
    let start = noise.lfsr & 0x7F;
    noise.tick(32 * 127);
    assert_eq!(noise.lfsr & 0x7F, start);
    noise.tick(32);
    assert_ne!(noise.lfsr & 0x7F, start);
    noise.write_control(0x8000 | (14 << 4));
    let frozen = noise.lfsr;
    noise.tick(1 << 20);
    assert_eq!(noise.lfsr, frozen, "shift 14 stops the clock");
}
