use tuiba_core::apu::{Apu, CYCLES_PER_SAMPLE, SEQUENCER_INTERVAL, reg};

fn powered() -> Apu {
    let mut apu = Apu::new();
    apu.write16(reg::SOUNDCNT_X, 0x80);
    apu
}

#[test]
fn registers_read_back_through_masks() {
    let mut apu = powered();
    apu.write16(reg::SOUND1CNT_H, 0xFFFF);
    assert_eq!(apu.read16(reg::SOUND1CNT_H), 0xFFC0, "length is write-only");
    apu.write16(reg::SOUND1CNT_X, 0xFFFF);
    assert_eq!(apu.read16(reg::SOUND1CNT_X), 0x4000);
    assert_eq!(apu.read16(reg::SOUNDBIAS), 0x0200, "power-on bias");
    apu.write16(0x066, 0x1234);
    assert_eq!(apu.read16(0x066), 0, "unused register");
    apu.write16(reg::FIFO_A, 0x1234);
    assert_eq!(apu.read16(reg::FIFO_A), 0, "FIFO is write-only");
}

#[test]
fn byte_writes_merge_with_write_only_fields_intact() {
    let mut apu = powered();
    // Length 10, duty 3, volume 15.
    apu.write16(reg::SOUND1CNT_H, 0xF000 | (3 << 6) | 0x0A);
    // Rewriting the high byte alone must not clobber the length.
    apu.write8(reg::SOUND1CNT_H + 1, 0x80);
    assert_eq!(
        apu.raw[Apu::index(reg::SOUND1CNT_H)],
        0x8000 | (3 << 6) | 0x0A
    );
    assert_eq!(apu.read16(reg::SOUND1CNT_H), 0x80C0);
}

#[test]
fn status_bits_track_active_channels() {
    let mut apu = powered();
    assert_eq!(apu.read16(reg::SOUNDCNT_X), 0x80);
    apu.write16(reg::SOUND2CNT_L, 0xF000);
    apu.write16(reg::SOUND2CNT_H, 0x8000 | 0x03E8);
    assert_eq!(apu.read16(reg::SOUNDCNT_X), 0x82);
    apu.write16(reg::SOUND4CNT_L, 0xF000);
    apu.write16(reg::SOUND4CNT_H, 0x8000);
    assert_eq!(apu.read16(reg::SOUNDCNT_X), 0x8A);
}

#[test]
fn master_disable_resets_and_freezes_psg_registers() {
    let mut apu = powered();
    apu.write16(reg::SOUND1CNT_L, 0x0077);
    apu.write16(reg::SOUNDCNT_L, 0xFF77);
    apu.write16(reg::SOUNDCNT_H, 0x0002);
    apu.write16(reg::SOUNDCNT_X, 0);
    assert_eq!(apu.read16(reg::SOUND1CNT_L), 0);
    assert_eq!(apu.read16(reg::SOUNDCNT_L), 0);
    assert_eq!(apu.read16(reg::SOUNDCNT_H), 0x0002, "not a PSG register");
    apu.write16(reg::SOUND1CNT_L, 0x0077);
    assert_eq!(apu.read16(reg::SOUND1CNT_L), 0, "writes ignored while off");
    apu.step(CYCLES_PER_SAMPLE * 4);
    assert!(apu.samples().iter().all(|&s| s == 0), "silence while off");
}

#[test]
fn produces_one_stereo_pair_per_512_cycles() {
    let mut apu = powered();
    apu.step(511);
    assert!(apu.samples().is_empty());
    apu.step(1);
    assert_eq!(apu.samples().len(), 2);
    apu.step(CYCLES_PER_SAMPLE * 10 + 3);
    assert_eq!(apu.samples().len(), 22);
    apu.clear_samples();
    assert!(apu.samples().is_empty());
}

#[test]
fn square_wave_reaches_the_output_with_panning() {
    let mut apu = powered();
    // Channel 2 only on the left, full master volume, 100 % ratio.
    apu.write16(reg::SOUNDCNT_L, (1 << 13) | 0x77);
    apu.write16(reg::SOUNDCNT_H, 2);
    apu.write16(reg::SOUND2CNT_L, 0xF000 | (2 << 6)); // 50 % duty
    apu.write16(reg::SOUND2CNT_H, 0x8000 | 1024); // period 16 384 cycles
    // 32 samples per duty step: sample the first quarter of the wave.
    apu.step(CYCLES_PER_SAMPLE * 64);
    let samples = apu.samples();
    let left: Vec<i16> = samples.iter().step_by(2).copied().collect();
    let right: Vec<i16> = samples.iter().skip(1).step_by(2).copied().collect();
    assert!(right.iter().all(|&s| s == 0), "not routed right");
    // Level 15 -> +15 * 8 * 4 * 512 / 1920 = 128 -> << 6.
    assert_eq!(left[0], 128 << 6);
    // After the first eighth the 50 % duty drops low: -15 -> -128.
    assert_eq!(left[40], -128 << 6);
}

#[test]
fn fifo_samples_follow_their_timer_and_panning() {
    let mut apu = powered();
    // FIFO A: 100 %, timer 0, left only. FIFO B: 50 %, timer 1, right.
    apu.write16(reg::SOUNDCNT_H, (1 << 2) | (1 << 9) | (1 << 14) | (1 << 12));
    apu.write16(reg::FIFO_A, 0x0040); // bytes 0x40, 0x00
    apu.write16(reg::FIFO_A + 2, 0x0000);
    apu.write8(reg::FIFO_B, 0x80); // -128
    assert_eq!(apu.read16(reg::SOUNDCNT_H) & 0x8800, 0, "reset bits");
    assert_eq!(apu.timer_overflow(0, 1), 0b01, "A wants a refill");
    assert_eq!(apu.timer_overflow(1, 1), 0b10);
    assert_eq!(apu.fifo[0].sample(), 0x40);
    assert_eq!(apu.fifo[1].sample(), -128);
    assert_eq!(apu.mix(), ((0x40 * 4) << 6, (-128 * 2) << 6));
    // Timer 0 does not clock FIFO B, and A moves on to its next byte.
    apu.timer_overflow(0, 1);
    assert_eq!(apu.fifo[1].sample(), -128);
    assert_eq!(apu.mix(), (0, (-128 * 2) << 6));
    // Reset bit empties A and silences it.
    apu.write16(reg::SOUNDCNT_H, (1 << 11) | (1 << 9));
    assert!(apu.fifo[0].is_empty());
    apu.timer_overflow(0, 1);
    assert_eq!(apu.mix(), (0, 0));
}

#[test]
fn length_counter_silences_through_the_sequencer() {
    let mut apu = powered();
    apu.write16(reg::SOUNDCNT_L, 0xFF77);
    apu.write16(reg::SOUNDCNT_H, 2);
    // Length field 63 -> one 256 Hz tick, length enabled.
    apu.write16(reg::SOUND1CNT_H, 0xF000 | 63);
    apu.write16(reg::SOUND1CNT_X, 0x8000 | 0x4000 | 1024);
    assert!(apu.square1.active());
    // Length clocks on sequencer step 0: the first fires after 64
    // samples.
    apu.step(CYCLES_PER_SAMPLE * SEQUENCER_INTERVAL);
    assert!(!apu.square1.active());
    assert_eq!(apu.read16(reg::SOUNDCNT_X) & 1, 0);
}
