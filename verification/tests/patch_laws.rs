use tuiba_core::error::GbaError;
use tuiba_core::patch::{apply, crc32, Format, PatchError, Reader};

fn error_of(rom: &[u8], patch: &[u8]) -> PatchError {
    match apply(rom, patch) {
        Err(GbaError::Patch(err)) => err,
        other => panic!("expected a patch error, got {other:?}"),
    }
}

/// A UPS patch that changes nothing of `rom` but promises checksum `target`.
fn idle_ups(rom: &[u8], target: u32) -> Vec<u8> {
    let mut patch = b"UPS1".to_vec();
    patch.push(rom.len() as u8 | 0x80);
    patch.push(rom.len() as u8 | 0x80);
    patch.extend_from_slice(&crc32(rom).to_le_bytes());
    patch.extend_from_slice(&target.to_le_bytes());
    let own = crc32(&patch);
    patch.extend_from_slice(&own.to_le_bytes());
    patch
}

#[test]
fn a_patch_must_give_the_image_it_promises() {
    let rom = b"image";
    assert_eq!(apply(rom, &idle_ups(rom, crc32(rom))).unwrap(), rom);
    assert_eq!(error_of(rom, &idle_ups(rom, 0)), PatchError::BadResult);
    assert_eq!(
        error_of(b"other", &idle_ups(rom, crc32(rom))),
        PatchError::WrongSource
    );
}

#[test]
fn short_and_unknown_patches_are_told_apart() {
    assert_eq!(error_of(b"rom", b""), PatchError::UnknownFormat);
    assert_eq!(error_of(b"rom", b"BPS1"), PatchError::Truncated);
    assert_eq!(error_of(b"rom", b"PATCH"), PatchError::Truncated);
}

#[test]
fn numbers_end_where_their_encoding_does() {
    let bytes = [0x00, 0x80, 0xFF];
    let mut reader = Reader::new(&bytes);
    assert_eq!(reader.number(), Ok(128), "0x00 0x80 is 0 + 1 * 128");
    assert_eq!(reader.number(), Ok(127));
    assert_eq!(reader.number(), Err(PatchError::Truncated));
}

#[test]
fn formats_name_their_extensions() {
    assert_eq!(Format::Ips.extension(), "ips");
    assert_eq!(Format::Ups.extension(), "ups");
    assert_eq!(Format::Bps.extension(), "bps");
}

#[test]
fn a_number_has_one_encoding() {
    let mut bytes = vec![0u8; 9];
    bytes.push(0x80);
    let largest_places: usize = (1..=9).map(|k| 1usize << (7 * k)).sum();
    assert_eq!(Reader::new(&bytes).number(), Ok(largest_places));
    // No digit is worth a place that the machine cannot hold.
    let mut bytes = vec![0u8; 10];
    bytes.push(0x80);
    assert_eq!(Reader::new(&bytes).number(), Err(PatchError::Truncated));
}
