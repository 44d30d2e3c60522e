use tuiba_core::apu::{reg, Apu, CYCLES_PER_SAMPLE};

/// A sound unit with every tone channel playing.
fn playing() -> Apu {
    let mut apu = Apu::new();
    apu.write16(reg::SOUNDCNT_X, 0x80);
    apu.write16(reg::SOUNDCNT_L, 0xFF77);
    apu.write16(reg::SOUNDCNT_H, 2);
    apu.write16(reg::SOUND1CNT_H, 0xF000 | (2 << 6));
    apu.write16(reg::SOUND1CNT_X, 0x8000 | 1500);
    apu.write16(reg::SOUND2CNT_L, 0xA000 | (1 << 6));
    apu.write16(reg::SOUND2CNT_H, 0x8000 | 900);
    apu.write16(reg::SOUND4CNT_L, 0xC000);
    apu.write16(reg::SOUND4CNT_H, 0x8000 | 0x21);
    apu
}

#[test]
fn sound_does_not_care_how_time_is_cut() {
    let (mut whole, mut cut) = (playing(), playing());
    whole.step(CYCLES_PER_SAMPLE * 300 + 77);
    let mut left = CYCLES_PER_SAMPLE * 300 + 77;
    while left > 0 {
        let part = left.min(701);
        cut.step(part);
        left -= part;
    }
    assert_eq!(whole.samples(), cut.samples());
    assert_eq!(whole.samples().len(), 600);
    assert!(whole.samples().iter().any(|&s| s != 0));
}

#[test]
fn a_unit_that_is_off_is_silent() {
    let mut apu = playing();
    apu.write16(reg::SOUNDCNT_X, 0);
    apu.step(CYCLES_PER_SAMPLE * 10);
    assert_eq!(apu.samples(), [0; 20]);
}
