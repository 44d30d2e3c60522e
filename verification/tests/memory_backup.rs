use tuiba_core::memory::backup::{Backup, Flash, SaveType};

#[test]
fn detects_save_type_strings() {
    assert_eq!(
        SaveType::detect(b"....FLASH1M_V103...."),
        SaveType::Flash128K
    );
    assert_eq!(
        SaveType::detect(b"....FLASH512_V131..."),
        SaveType::Flash64K
    );
    assert_eq!(SaveType::detect(b"....SRAM_V112..."), SaveType::Sram);
    assert_eq!(SaveType::detect(b"....EEPROM_V124..."), SaveType::Eeprom);
    assert_eq!(SaveType::detect(b"nothing here"), SaveType::Unknown);
}

fn unlock(flash: &mut Flash, command: u8) {
    flash.write(0x5555, 0xAA);
    flash.write(0x2AAA, 0x55);
    flash.write(0x5555, command);
}

#[test]
fn id_mode_reports_chip() {
    let mut flash = Flash::new(0x2_0000);
    assert_eq!(flash.read(0), 0xFF);
    unlock(&mut flash, 0x90);
    assert_eq!((flash.read(0), flash.read(1)), (0x62, 0x13));
    unlock(&mut flash, 0xF0);
    assert_eq!(flash.read(0), 0xFF);
    assert_eq!(
        (
            Flash::new(0x1_0000).manufacturer,
            Flash::new(0x1_0000).device
        ),
        (0xC2, 0x1C)
    );
}

#[test]
fn program_erase_and_banks() {
    let mut flash = Flash::new(0x2_0000);
    unlock(&mut flash, 0xA0);
    flash.write(0x1234, 0x5A);
    assert_eq!(flash.read(0x1234), 0x5A);
    unlock(&mut flash, 0xA0);
    flash.write(0x1234, 0x0F);
    assert_eq!(flash.read(0x1234), 0x0A, "program only clears bits");

    // Bank 1 is separate storage.
    unlock(&mut flash, 0xB0);
    flash.write(0x0000, 1);
    assert_eq!(flash.read(0x1234), 0xFF);
    unlock(&mut flash, 0xA0);
    flash.write(0x1234, 0x77);
    assert_eq!(flash.data()[0x1_1234], 0x77);
    unlock(&mut flash, 0xB0);
    flash.write(0x0000, 0);
    assert_eq!(flash.read(0x1234), 0x0A);

    // Sector erase clears 4 KiB, chip erase everything.
    unlock(&mut flash, 0x80);
    unlock(&mut flash, 0x30_u8);
    // The sector-erase command byte goes to the sector address instead.
    let mut flash2 = Flash::new(0x2_0000);
    unlock(&mut flash2, 0xA0);
    flash2.write(0x1000, 0x00);
    unlock(&mut flash2, 0xA0);
    flash2.write(0x2000, 0x00);
    unlock(&mut flash2, 0x80);
    flash2.write(0x5555, 0xAA);
    flash2.write(0x2AAA, 0x55);
    flash2.write(0x1000, 0x30);
    assert_eq!(flash2.read(0x1000), 0xFF, "sector erased");
    assert_eq!(flash2.read(0x2000), 0x00, "other sector intact");
    unlock(&mut flash2, 0x80);
    flash2.write(0x5555, 0xAA);
    flash2.write(0x2AAA, 0x55);
    flash2.write(0x5555, 0x10);
    assert_eq!(flash2.read(0x2000), 0xFF, "chip erased");
}

#[test]
fn sram_backup_round_trips_and_loads() {
    let mut backup = Backup::for_type(SaveType::Sram);
    backup.write(0x10, 0x42);
    assert_eq!(backup.read(0x10), 0x42);
    assert_eq!(backup.read(0x8010), 0x42, "32 KiB mirror");
    let mut other = Backup::for_type(SaveType::Sram);
    other.load(backup.data());
    assert_eq!(other.read(0x10), 0x42);
}
