use tuiba_core::error::{GbaError, Result};
use tuiba_core::patch::{Format, PatchError, Reader, apply, crc32};

/// Encodes a number the way [`Reader::number`] reads it.
fn number(mut n: usize) -> Vec<u8> {
    let mut out = Vec::new();
    loop {
        let low = (n & 0x7F) as u8;
        n >>= 7;
        if n == 0 {
            out.push(low | 0x80);
            return out;
        }
        out.push(low);
        n -= 1;
    }
}

/// Appends the three-checksum footer to a UPS or BPS body.
fn with_footer(mut body: Vec<u8>, source: &[u8], target: &[u8]) -> Vec<u8> {
    body.extend_from_slice(&crc32(source).to_le_bytes());
    body.extend_from_slice(&crc32(target).to_le_bytes());
    let own = crc32(&body);
    body.extend_from_slice(&own.to_le_bytes());
    body
}

fn patch_error(result: Result<Vec<u8>>) -> PatchError {
    match result {
        Err(GbaError::Patch(err)) => err,
        other => panic!("expected a patch error, got {other:?}"),
    }
}

#[test]
fn crc32_matches_reference() {
    assert_eq!(crc32(b"123456789"), 0xCBF4_3926);
    assert_eq!(crc32(b""), 0);
}

#[test]
fn numbers_round_trip() {
    for n in [0, 1, 127, 128, 129, 16_383, 16_384, 16_512, 1 << 25] {
        let bytes = number(n);
        assert_eq!(Reader::new(&bytes).number(), Ok(n), "{n}");
    }
}

#[test]
fn formats_are_told_apart_by_magic() {
    assert_eq!(Format::detect(b"PATCHEOF"), Some(Format::Ips));
    assert_eq!(Format::detect(b"UPS1...."), Some(Format::Ups));
    assert_eq!(Format::detect(b"BPS1...."), Some(Format::Bps));
    assert_eq!(Format::detect(b"\x89PNG"), None);
    assert_eq!(
        patch_error(apply(b"rom", b"nonsense")),
        PatchError::UnknownFormat
    );
}

#[test]
fn ips_writes_runs_and_repeats_and_can_grow() {
    let rom = b"hello world".to_vec();
    let mut patch = b"PATCH".to_vec();
    // "jello" at 0.
    patch.extend_from_slice(&[0, 0, 0, 0, 1, b'j']);
    // Three '!' starting at 11, past the end.
    patch.extend_from_slice(&[0, 0, 11, 0, 0, 0, 3, b'!']);
    patch.extend_from_slice(b"EOF");
    assert_eq!(apply(&rom, &patch).unwrap(), b"jello world!!!");
}

#[test]
fn ips_can_truncate() {
    let mut patch = b"PATCH".to_vec();
    patch.extend_from_slice(b"EOF");
    patch.extend_from_slice(&[0, 0, 5]);
    assert_eq!(apply(b"hello world", &patch).unwrap(), b"hello");
}

#[test]
fn ips_without_eof_is_truncated() {
    let patch = b"PATCH\x00\x00\x00\x00\x05ab".to_vec();
    assert_eq!(patch_error(apply(b"hello", &patch)), PatchError::Truncated);
}

/// "hello world" → "jello there": XOR runs at 0 and at 6..11.
fn ups_patch(source: &[u8], target: &[u8]) -> Vec<u8> {
    let mut body = b"UPS1".to_vec();
    body.extend(number(source.len()));
    body.extend(number(target.len()));
    let mut pos = 0;
    let mut i = 0;
    while i < target.len() {
        let s = source.get(i).copied().unwrap_or(0);
        if s == target[i] {
            i += 1;
            continue;
        }
        body.extend(number(i - pos));
        while i < target.len() && source.get(i).copied().unwrap_or(0) != target[i] {
            body.push(source.get(i).copied().unwrap_or(0) ^ target[i]);
            i += 1;
        }
        body.push(0);
        i += 1;
        pos = i;
    }
    with_footer(body, source, target)
}

#[test]
fn ups_applies_and_checks() {
    let (source, target) = (b"hello world", b"jello there, friend");
    let patch = ups_patch(source, target);
    assert_eq!(apply(source, &patch).unwrap(), target);
    assert_eq!(
        patch_error(apply(b"hello wOrld", &patch)),
        PatchError::WrongSource
    );
    let mut damaged = patch.clone();
    damaged[6] ^= 1;
    assert_eq!(patch_error(apply(source, &damaged)), PatchError::Damaged);
}

/// A BPS patch using every action: the source's "hello " in place,
/// a literal "big ", "world" copied from the source, a literal "!",
/// then a target copy that repeats the "!" as it writes it.
fn bps_patch(source: &[u8], target: &[u8]) -> Vec<u8> {
    let action = |kind: usize, len: usize| number(((len - 1) << 2) | kind);
    let mut body = b"BPS1".to_vec();
    body.extend(number(source.len()));
    body.extend(number(target.len()));
    body.extend(number(3));
    body.extend_from_slice(b"meh");
    body.extend(action(0, 6)); // "hello "
    body.extend(action(1, 4)); // "big "
    body.extend_from_slice(b"big ");
    body.extend(action(2, 5)); // source "world" at 6
    body.extend(number(6 << 1));
    body.extend(action(1, 1)); // "!"
    body.push(b'!');
    body.extend(action(3, 3)); // "!!!" from the '!' at 15, overlapping
    body.extend(number(15 << 1));
    with_footer(body, source, target)
}

#[test]
fn bps_applies_every_action() {
    let (source, target) = (b"hello world", b"hello big world!!!!");
    let patch = bps_patch(source, target);
    assert_eq!(apply(source, &patch).unwrap(), target);
}

#[test]
fn bps_refuses_the_wrong_rom_and_a_damaged_patch() {
    let (source, target) = (b"hello world", b"hello big world!!!!");
    let patch = bps_patch(source, target);
    assert_eq!(
        patch_error(apply(b"HELLO WORLD", &patch)),
        PatchError::WrongSource
    );
    let mut damaged = patch.clone();
    let last = damaged.len() - 13;
    damaged[last] ^= 0x40;
    assert_eq!(patch_error(apply(source, &damaged)), PatchError::Damaged);
}

#[test]
fn bps_copies_outside_the_source_are_refused_not_panicked_on() {
    let source = b"abc";
    let target = b"abcabc";
    let mut body = b"BPS1".to_vec();
    body.extend(number(3));
    body.extend(number(6));
    body.extend(number(0));
    body.extend(number(((6 - 1) << 2) | 2)); // copy 6 from a 3-byte source
    body.extend(number(0));
    let patch = with_footer(body, source, target);
    assert_eq!(patch_error(apply(source, &patch)), PatchError::OutOfRange);
}
