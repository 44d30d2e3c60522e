//! ROM patches: IPS, UPS and BPS.
//!
//! Translations and ROM hacks are distributed as patches against the
//! original image rather than as ROMs. [`apply`] recognises the format
//! from the patch's first bytes and returns the patched image, which is
//! then loaded like any other ROM: its fingerprint differs from the
//! original's, so save states of the two never mix.
//!
//! UPS and BPS carry CRC-32s of the image they expect, the image they
//! produce and themselves; all three are checked, so a patch for a
//! different revision of a game is refused instead of producing
//! something that crashes later. IPS has no checksums and applies to
//! whatever it is given.

use vstd::prelude::*;
use vstd::slice::{slice_subrange, slice_to_vec};

use crate::bytes::{get32, word_at};
use crate::error::{GbaError, Result};

verus! {

broadcast use crate::bits::group_mask_bounds;

/// The patch formats [`apply`] understands.
#[derive(Debug, Clone, Copy, PartialEq, Eq, Structural)]
pub enum Format {
    /// International Patching System: offsets and bytes, no checks.
    Ips,
    /// Universal Patching System: XOR runs, with CRC-32s.
    Ups,
    /// Beat Patching System: copies from source, target or patch, with
    /// CRC-32s.
    Bps,
}

/// The magic bytes `PATCH`.
pub open spec fn ips_magic() -> Seq<u8> {
    seq![0x50u8, 0x41, 0x54, 0x43, 0x48]
}

/// The magic bytes `UPS1`.
pub open spec fn ups_magic() -> Seq<u8> {
    seq![0x55u8, 0x50, 0x53, 0x31]
}

/// The magic bytes `BPS1`.
pub open spec fn bps_magic() -> Seq<u8> {
    seq![0x42u8, 0x50, 0x53, 0x31]
}

/// The format that `patch` starts like.
pub open spec fn format_of(patch: Seq<u8>) -> Option<Format> {
    if ips_magic().is_prefix_of(patch) {
        Some(Format::Ips)
    } else if ups_magic().is_prefix_of(patch) {
        Some(Format::Ups)
    } else if bps_magic().is_prefix_of(patch) {
        Some(Format::Bps)
    } else {
        None
    }
}

/// Whether `bytes` starts with `magic`.
fn starts_with(bytes: &[u8], magic: &[u8]) -> (found: bool)
    ensures
        found == magic@.is_prefix_of(bytes@),
{
    if bytes.len() < magic.len() {
        return false;
    }
    let mut i: usize = 0;
    while i < magic.len()
        invariant
            i <= magic@.len() <= bytes@.len(),
            forall|k: int| 0 <= k < i ==> bytes@[k] == magic@[k],
        decreases magic@.len() - i,
    {
        if bytes[i] != magic[i] {
            proof {
                assert(bytes@.subrange(0, magic@.len() as int)[i as int] != magic@[i as int]);
            }
            return false;
        }
        i = i + 1;
    }
    assert(bytes@.subrange(0, magic@.len() as int) =~= magic@);
    true
}

impl Format {
    /// Recognises a patch by its magic bytes.
    #[must_use]
    pub fn detect(patch: &[u8]) -> (format: Option<Self>)
        ensures
            format == format_of(patch@),
    {
        let ips: [u8; 5] = [0x50, 0x41, 0x54, 0x43, 0x48];
        let ups: [u8; 4] = [0x55, 0x50, 0x53, 0x31];
        let bps: [u8; 4] = [0x42, 0x50, 0x53, 0x31];
        proof {
            assert(ips@ =~= ips_magic());
            assert(ups@ =~= ups_magic());
            assert(bps@ =~= bps_magic());
        }
        if starts_with(patch, &ips) {
            Some(Self::Ips)
        } else if starts_with(patch, &ups) {
            Some(Self::Ups)
        } else if starts_with(patch, &bps) {
            Some(Self::Bps)
        } else {
            None
        }
    }

    /// The file extension patches of this format use.
    #[must_use]
    pub fn extension(self) -> (extension: &'static str)
        ensures
            extension@ == match self {
                Format::Ips => "ips"@,
                Format::Ups => "ups"@,
                Format::Bps => "bps"@,
            },
    {
        match self {
            Self::Ips => "ips",
            Self::Ups => "ups",
            Self::Bps => "bps",
        }
    }
}

/// Ways a patch can fail to apply.
#[derive(Debug, Clone, Copy, PartialEq, Eq, Structural)]
#[non_exhaustive]
pub enum PatchError {
    /// The bytes do not start like any known patch format.
    UnknownFormat,
    /// The patch ends in the middle of a record.
    Truncated,
    /// The patch's own checksum does not match: it was damaged in
    /// transit.
    Damaged,
    /// The patch was made for a different ROM (or a different revision
    /// of this one).
    WrongSource,
    /// Applying the patch did not produce the image it promised.
    BadResult,
    /// A copy in the patch reaches outside the image it copies from.
    OutOfRange,
}

impl From<PatchError> for GbaError {
    fn from(err: PatchError) -> (error: Self) {
        Self::Patch(err)
    }
}

impl vstd::std_specs::convert::FromSpecImpl<PatchError> for GbaError {
    open spec fn obeys_from_spec() -> bool {
        true
    }

    open spec fn from_spec(err: PatchError) -> GbaError {
        GbaError::Patch(err)
    }
}

/// What a patch yields: an image, or the reason there is none.
pub type Patched = core::result::Result<Seq<u8>, PatchError>;

/// Whether `result` is what `patched` says.
pub open spec fn agrees(
    result: core::result::Result<Vec<u8>, PatchError>,
    patched: core::result::Result<Seq<u8>, PatchError>,
) -> bool {
    match result {
        Ok(image) => patched == Ok::<Seq<u8>, PatchError>(image@),
        Err(err) => patched == Err::<Seq<u8>, PatchError>(err),
    }
}

/// The big-endian number at `at`, of two bytes.
pub open spec fn be2(p: Seq<u8>, at: int) -> int {
    p[at] * 256 + p[at + 1]
}

/// The big-endian number at `at`, of three bytes.
pub open spec fn be3(p: Seq<u8>, at: int) -> int {
    p[at] * 0x1_0000 + be2(p, at + 1)
}

/// `image` grown with zeros to at least `size`.
pub open spec fn grown(image: Seq<u8>, size: int) -> Seq<u8> {
    Seq::new(
        (if image.len() < size {
            size
        } else {
            image.len() as int
        }) as nat,
        |i: int|
            if i < image.len() {
                image[i]
            } else {
                0
            },
    )
}

/// `image` with `data` at `offset`, grown with zeros where `data` reaches
/// past the end.
pub open spec fn written(image: Seq<u8>, offset: int, data: Seq<u8>) -> Seq<u8> {
    let room = grown(image, offset + data.len());
    Seq::new(
        room.len(),
        |i: int|
            if offset <= i < offset + data.len() {
                data[i - offset]
            } else {
                room[i]
            },
    )
}

/// What the IPS records from `at` on make of `image`: records of a 3-byte
/// offset and a 2-byte length followed by that many bytes, or, when the
/// length is zero, a 2-byte count and one byte to repeat. `EOF` ends the
/// list, optionally followed by a 3-byte size to truncate the image to.
pub open spec fn ips_from(image: Seq<u8>, p: Seq<u8>, at: int) -> Patched
    decreases p.len() - at,
{
    if p.len() < at + 3 {
        Err(PatchError::Truncated)
    } else if p[at] == 0x45 && p[at + 1] == 0x4F && p[at + 2] == 0x46 {
        if p.len() >= at + 6 && be3(p, at + 3) < image.len() {
            Ok(image.take(be3(p, at + 3)))
        } else {
            Ok(image)
        }
    } else if p.len() < at + 5 {
        Err(PatchError::Truncated)
    } else {
        let offset = be3(p, at);
        let len = be2(p, at + 3);
        if len == 0 {
            if p.len() < at + 8 {
                Err(PatchError::Truncated)
            } else {
                let run = Seq::new(be2(p, at + 5) as nat, |i: int| p[at + 7]);
                ips_from(written(image, offset, run), p, at + 8)
            }
        } else if p.len() < at + 5 + len {
            Err(PatchError::Truncated)
        } else {
            ips_from(written(image, offset, p.subrange(at + 5, at + 5 + len)), p, at + 5 + len)
        }
    }
}

/// The variable-length number at `at`, continuing from `n` with digits
/// worth `shift`, and where it ends: seven bits per byte, low first, the
/// top bit ending it, with one added per continuation so that every number
/// has exactly one encoding. `None` where the bytes run out or the number
/// leaves the machine's range.
pub open spec fn number_from(p: Seq<u8>, at: int, n: int, shift: int) -> Option<(int, int)>
    decreases p.len() - at,
{
    if at >= p.len() {
        None
    } else {
        let sum = n + (p[at] & 0x7F) * shift;
        let next = shift * 128;
        if sum > usize::MAX {
            None
        } else if p[at] & 0x80 != 0 {
            Some((sum, at + 1))
        } else if sum + next > usize::MAX {
            None
        } else {
            number_from(p, at + 1, sum + next, next)
        }
    }
}

/// The variable-length number at `at`, and where it ends.
pub open spec fn number_at(p: Seq<u8>, at: int) -> Option<(int, int)> {
    number_from(p, at, 0, 1)
}

/// A number ends behind where it starts, within the bytes, and in range.
pub proof fn law_number_advances(p: Seq<u8>, at: int, n: int, shift: int)
    requires
        0 <= at,
        0 <= n,
        0 <= shift,
    ensures
        number_from(p, at, n, shift) matches Some((value, next)) ==> at < next <= p.len() && 0
            <= value <= usize::MAX,
    decreases p.len() - at,
{
    if at < p.len() {
        let digit = (p[at] & 0x7F) * shift;
        assert(digit >= 0) by (nonlinear_arith)
            requires
                digit == (p[at] & 0x7F) * shift,
                (p[at] & 0x7F) >= 0,
                shift >= 0,
        ;
        let next = shift * 128;
        law_number_advances(p, at + 1, n + digit + next, next);
    }
}

/// The encoding of a number, seven bits at a time.
pub open spec fn encoded_number(n: int) -> Seq<u8>
    decreases n,
{
    if n < 128 {
        seq![(n + 128) as u8]
    } else {
        seq![(n % 128) as u8] + encoded_number(n / 128 - 1)
    }
}

proof fn lemma_digit_bits(d: u8)
    requires
        d < 128,
    ensures
        d & 0x7F == d,
        d & 0x80 == 0,
        ((d + 128) as u8) & 0x7F == d,
        ((d + 128) as u8) & 0x80 != 0,
{
    crate::bits::small_facts(d, 0, 0, 0);
}

/// The digits of a number, read from the place that `shift` stands for.
proof fn lemma_number_read(p: Seq<u8>, at: int, base: int, shift: int, n: int)
    requires
        0 <= at,
        0 <= base,
        0 <= n,
        1 <= shift,
        base + n * shift <= usize::MAX,
        at + encoded_number(n).len() <= p.len(),
        p.subrange(at, at + encoded_number(n).len()) == encoded_number(n),
    ensures
        number_from(p, at, base, shift) == Some(
            (base + n * shift, at + encoded_number(n).len()),
        ),
    decreases n,
{
    let digits = encoded_number(n);
    assert(p.subrange(at, at + digits.len())[0] == p[at]);
    let d = (n % 128) as u8;
    lemma_digit_bits(d);
    if n >= 128 {
        let rest = n / 128 - 1;
        let next = shift * 128;
        assert(next <= n * shift && d * shift <= n * shift && n * shift == d * shift + next + rest
            * next) by (nonlinear_arith)
            requires
                n == 128 * (rest + 1) + d,
                rest >= 0,
                d >= 0,
                shift >= 1,
                next == shift * 128,
        ;
        assert(rest * next >= 0) by (nonlinear_arith)
            requires
                rest >= 0,
                next >= 0,
        ;
        let tail = encoded_number(rest);
        assert(p.subrange(at + 1, at + 1 + tail.len()) =~= p.subrange(at, at + digits.len()).skip(
            1,
        ));
        assert(digits.skip(1) =~= tail);
        lemma_number_read(p, at + 1, base + d * shift + next, next, rest);
    }
}

/// Every number that the machine can hold has an encoding, which is read back
/// as it.
pub proof fn law_number_round_trip(p: Seq<u8>, at: int, n: usize)
    requires
        0 <= at,
        at + encoded_number(n as int).len() <= p.len(),
        p.subrange(at, at + encoded_number(n as int).len()) == encoded_number(n as int),
    ensures
        number_at(p, at) == Some((n as int, at + encoded_number(n as int).len())),
{
    lemma_number_read(p, at, 0, 1, n as int);
}

proof fn lemma_digit_byte(b: u8)
    ensures
        b & 0x80 == 0 ==> b & 0x7F == b && b < 128,
        b & 0x80 != 0 ==> b >= 128 && b & 0x7F == b - 128,
{
    crate::bits::small_facts(b, 0, 0, 0);
}

/// The digits that were read are those of the number that they gave.
proof fn lemma_number_digits(
    p: Seq<u8>,
    at: int,
    base: int,
    shift: int,
    value: int,
    next: int,
) -> (n: int)
    requires
        0 <= at,
        0 <= base,
        1 <= shift,
        number_from(p, at, base, shift) == Some((value, next)),
    ensures
        n >= 0,
        value == base + n * shift,
        at < next <= p.len(),
        p.subrange(at, next) == encoded_number(n),
    decreases p.len() - at,
{
    let b = p[at];
    lemma_digit_byte(b);
    let d = (b & 0x7F) as int;
    let digit = d * shift;
    assert(digit >= 0) by (nonlinear_arith)
        requires
            digit == d * shift,
            d >= 0,
            shift >= 1,
    ;
    if b & 0x80 != 0 {
        assert(p.subrange(at, next) =~= encoded_number(d));
        d
    } else {
        let place = shift * 128;
        let rest = lemma_number_digits(p, at + 1, base + digit + place, place, value, next);
        let n = d + 128 + rest * 128;
        assert(n * shift == digit + place + rest * place) by (nonlinear_arith)
            requires
                n == d + 128 + rest * 128,
                digit == d * shift,
                place == shift * 128,
        ;
        assert(n % 128 == d && n / 128 - 1 == rest);
        assert(p.subrange(at, next) =~= seq![b] + p.subrange(at + 1, next));
        n
    }
}

/// A number has no other encoding: what reads as it is its encoding.
pub proof fn law_number_encoding_is_unique(p: Seq<u8>, at: int, value: int, next: int)
    requires
        0 <= at,
        number_at(p, at) == Some((value, next)),
    ensures
        p.subrange(at, next) == encoded_number(value),
{
    let n = lemma_number_digits(p, at, 0, 1, value, next);
}

/// `image` with the byte at `pos`, if there is one, XORed with `x`.
pub open spec fn xored(image: Seq<u8>, pos: usize, x: u8) -> Seq<u8> {
    if pos < image.len() {
        image.update(pos as int, image[pos as int] ^ x)
    } else {
        image
    }
}

/// What the UPS runs from `at` on make of `image`, with the cursor at `pos`:
/// "skip this many bytes, XOR these in until a zero". The terminating zero
/// stands for one unchanged byte.
pub open spec fn ups_from(image: Seq<u8>, p: Seq<u8>, at: int, pos: usize, in_run: bool) -> Patched
    decreases p.len() - at,
{
    if in_run {
        if at >= p.len() {
            Err(PatchError::Truncated)
        } else if p[at] == 0 {
            ups_from(image, p, at + 1, pos.wrapping_add(1), false)
        } else {
            ups_from(xored(image, pos, p[at]), p, at + 1, pos.wrapping_add(1), true)
        }
    } else if at >= p.len() {
        Ok(image)
    } else {
        match number_at(p, at) {
            Some((skip, next)) => if at < next <= p.len() {
                ups_from(image, p, next, pos.wrapping_add(skip as usize), true)
            } else {
                Err(PatchError::Truncated)
            },
            None => Err(PatchError::Truncated),
        }
    }
}

/// `crc` shifted on by one bit.
pub open spec fn crc_bit(crc: u32) -> u32 {
    if crc & 1 == 0 {
        crc >> 1
    } else {
        (crc >> 1) ^ 0xEDB8_8320
    }
}

/// `crc` shifted on by `bits` bits.
pub open spec fn crc_bits(crc: u32, bits: int) -> u32
    decreases bits,
{
    if bits <= 0 {
        crc
    } else {
        crc_bit(crc_bits(crc, bits - 1))
    }
}

/// The CRC register after `data`.
pub open spec fn crc_register(data: Seq<u8>) -> u32
    decreases data.len(),
{
    if data.len() == 0 {
        0xFFFF_FFFF
    } else {
        crc_bits(crc_register(data.drop_last()) ^ (data.last() as u32), 8)
    }
}

/// The CRC-32 of `data`.
pub open spec fn checksum(data: Seq<u8>) -> u32 {
    !crc_register(data)
}

/// Length of the UPS/BPS checksum footer: source, target and patch
/// CRC-32s, little-endian.
pub const FOOTER_LEN: usize = 12;

/// Whether the footer of `patch` vouches for the patch and for `rom`, or the
/// reason that it does not.
pub open spec fn footer_error(rom: Seq<u8>, patch: Seq<u8>) -> Option<PatchError> {
    let len = patch.len() as int;
    if len < 16 {
        Some(PatchError::Truncated)
    } else if checksum(patch.take(len - 4)) != word_at(patch, len - 4) {
        Some(PatchError::Damaged)
    } else if checksum(rom) != word_at(patch, len - 12) {
        Some(PatchError::WrongSource)
    } else {
        None
    }
}

/// `image` if it has the checksum that the footer of `patch` promises.
pub open spec fn promised(image: Seq<u8>, patch: Seq<u8>) -> Patched {
    if checksum(image) != word_at(patch, patch.len() - 8) {
        Err(PatchError::BadResult)
    } else {
        Ok(image)
    }
}

/// The source and target sizes at the start of a UPS or BPS body and where
/// they end, or the reason that they are refused.
pub open spec fn sizes(rom: Seq<u8>, body: Seq<u8>) -> core::result::Result<
    (int, int),
    PatchError,
> {
    match number_at(body, 4) {
        None => Err(PatchError::Truncated),
        Some((source, at)) => match number_at(body, at) {
            None => Err(PatchError::Truncated),
            Some((target, next)) => if source != rom.len() {
                Err(PatchError::WrongSource)
            } else {
                Ok((target, next))
            },
        },
    }
}

/// What UPS patch `patch` makes of `rom`. A promised image that no machine
/// could hold is not produced.
pub open spec fn ups_patched(rom: Seq<u8>, patch: Seq<u8>) -> Patched {
    let body = patch.take(patch.len() - 12);
    if footer_error(rom, patch) is Some {
        Err(footer_error(rom, patch)->0)
    } else {
        match sizes(rom, body) {
            Err(err) => Err(err),
            Ok((target, at)) => if target > isize::MAX {
                Err(PatchError::BadResult)
            } else {
                match ups_from(grown(rom, target).take(target), body, at, 0, false) {
                    Err(err) => Err(err),
                    Ok(image) => promised(image, patch),
                }
            },
        }
    }
}

/// A BPS cursor after a move: the low bit is the sign, the rest the
/// distance. `None` outside the machine's range.
pub open spec fn cursor_moved(cursor: int, delta: int) -> Option<int> {
    let moved = if delta % 2 == 0 {
        cursor + delta / 2
    } else {
        cursor - delta / 2
    };
    if 0 <= moved <= usize::MAX {
        Some(moved)
    } else {
        None
    }
}

/// `image` extended by `count` bytes copied from `from` on, each of which
/// may be one that the copy itself has written.
pub open spec fn self_extended(image: Seq<u8>, from: int, count: int) -> Seq<u8>
    decreases count,
{
    if count <= 0 {
        image
    } else {
        let before = self_extended(image, from, count - 1);
        before.push(before[from + count - 1])
    }
}

/// A self copy adds exactly as many bytes as it says.
proof fn lemma_self_extended_len(image: Seq<u8>, from: int, count: int)
    requires
        0 <= count,
    ensures
        self_extended(image, from, count).len() == image.len() + count,
    decreases count,
{
    if count > 0 {
        lemma_self_extended_len(image, from, count - 1);
    }
}

/// Where a BPS patch is: what has been written, where the next action
/// stands, and the two cursors.
pub struct BpsState {
    /// The target written so far.
    pub image: Seq<u8>,
    /// Position in the patch.
    pub at: int,
    /// Cursor in the source.
    pub source: int,
    /// Cursor in the target.
    pub target: int,
}

/// `s`, unless more than `limit` bytes have been written.
pub open spec fn bounded(s: BpsState, limit: int) -> core::result::Result<BpsState, PatchError> {
    if s.image.len() > limit {
        Err(PatchError::BadResult)
    } else {
        Ok(s)
    }
}

/// The state after the action at `s.at`: copy the source at the same
/// offset, copy literal bytes from the patch, or copy from a moving cursor
/// in the source or in the target written so far. More than `limit` bytes
/// are too many.
pub open spec fn bps_action(
    rom: Seq<u8>,
    p: Seq<u8>,
    s: BpsState,
    limit: int,
) -> core::result::Result<BpsState, PatchError> {
    match number_at(p, s.at) {
        None => Err(PatchError::Truncated),
        Some((action, at)) => {
            let len = action / 4 + 1;
            let kind = action % 4;
            let written = s.image.len() as int;
            if kind == 0 {
                if written + len > rom.len() {
                    Err(PatchError::OutOfRange)
                } else {
                    bounded(
                        BpsState {
                            image: s.image + rom.subrange(written, written + len),
                            at,
                            ..s
                        },
                        limit,
                    )
                }
            } else if kind == 1 {
                if at + len > p.len() {
                    Err(PatchError::Truncated)
                } else {
                    bounded(
                        BpsState { image: s.image + p.subrange(at, at + len), at: at + len, ..s },
                        limit,
                    )
                }
            } else {
                match number_at(p, at) {
                    None => Err(PatchError::Truncated),
                    Some((delta, next)) => if kind == 2 {
                        match cursor_moved(s.source, delta) {
                            None => Err(PatchError::OutOfRange),
                            Some(from) => if from + len > rom.len() {
                                Err(PatchError::OutOfRange)
                            } else {
                                bounded(
                                    BpsState {
                                        image: s.image + rom.subrange(from, from + len),
                                        at: next,
                                        source: from + len,
                                        ..s
                                    },
                                    limit,
                                )
                            },
                        }
                    } else {
                        match cursor_moved(s.target, delta) {
                            None => Err(PatchError::OutOfRange),
                            Some(from) => if from >= written {
                                Err(PatchError::OutOfRange)
                            } else {
                                bounded(
                                    BpsState {
                                        image: self_extended(s.image, from, len),
                                        at: next,
                                        target: from + len,
                                        ..s
                                    },
                                    limit,
                                )
                            },
                        }
                    },
                }
            }
        },
    }
}

/// What the BPS actions from `s.at` on build, within `limit` bytes.
pub open spec fn bps_from(rom: Seq<u8>, p: Seq<u8>, s: BpsState, limit: int) -> Patched
    decreases p.len() - s.at,
{
    if s.at >= p.len() {
        Ok(s.image)
    } else {
        match bps_action(rom, p, s, limit) {
            Err(err) => Err(err),
            Ok(next) => if s.at < next.at <= p.len() {
                bps_from(rom, p, next, limit)
            } else {
                Err(PatchError::BadResult)
            },
        }
    }
}

/// What BPS patch `patch` makes of `rom`.
pub open spec fn bps_patched(rom: Seq<u8>, patch: Seq<u8>) -> Patched {
    let body = patch.take(patch.len() - 12);
    if footer_error(rom, patch) is Some {
        Err(footer_error(rom, patch)->0)
    } else {
        match sizes(rom, body) {
            Err(err) => Err(err),
            Ok((target, at)) => match number_at(body, at) {
                None => Err(PatchError::Truncated),
                Some((metadata, first)) => if first + metadata > body.len() {
                    Err(PatchError::Truncated)
                } else {
                    let start = BpsState {
                        image: Seq::empty(),
                        at: first + metadata,
                        source: 0,
                        target: 0,
                    };
                    match bps_from(rom, body, start, target) {
                        Err(err) => Err(err),
                        Ok(image) => if image.len() != target {
                            Err(PatchError::BadResult)
                        } else {
                            promised(image, patch)
                        },
                    }
                },
            },
        }
    }
}

/// What `patch` makes of `rom`.
pub open spec fn patched(rom: Seq<u8>, patch: Seq<u8>) -> Patched {
    match format_of(patch) {
        None => Err(PatchError::UnknownFormat),
        Some(Format::Ips) => ips_from(rom, patch, 5),
        Some(Format::Ups) => ups_patched(rom, patch),
        Some(Format::Bps) => bps_patched(rom, patch),
    }
}

/// Applies `patch` to `rom` and returns the patched image.
///
/// # Errors
///
/// [`GbaError::Patch`] with the reason when the patch is not one of the
/// supported formats, is damaged, or does not belong to `rom`.
pub fn apply(rom: &[u8], patch: &[u8]) -> (image: Result<Vec<u8>>)
    ensures
        match image {
            Ok(image) => patched(rom@, patch@) == Ok::<Seq<u8>, PatchError>(image@),
            Err(err) => err is Patch && patched(rom@, patch@) == Err::<Seq<u8>, PatchError>(
                err->Patch_0,
            ),
        },
{
    let result = match Format::detect(patch) {
        None => Err(PatchError::UnknownFormat),
        Some(Format::Ips) => ips(rom, patch),
        Some(Format::Ups) => ups(rom, patch),
        Some(Format::Bps) => bps(rom, patch),
    };
    match result {
        Ok(image) => Ok(image),
        Err(err) => Err(GbaError::from(err)),
    }
}

/// IPS: after `PATCH`, records of a 3-byte offset and a 2-byte length
/// followed by that many bytes, or, when the length is zero, a 2-byte
/// count and one byte to repeat. `EOF` ends the list, optionally
/// followed by a 3-byte size to truncate the image to.
fn ips(rom: &[u8], patch: &[u8]) -> (image: core::result::Result<Vec<u8>, PatchError>)
    requires
        patch@.len() >= 5,
    ensures
        agrees(image, ips_from(rom@, patch@, 5)),
{
    let mut out: Vec<u8> = slice_to_vec(rom);
    let mut r = Reader::at(patch, 5);
    loop
        invariant
            r.wf(),
            r.data@ == patch@,
            ips_from(rom@, patch@, 5) == ips_from(out@, patch@, r.pos as int),
        decreases patch@.len() - r.pos,
    {
        let at: usize = r.pos;
        let offset = match r.bytes(3) {
            Err(err) => {
                return Err(err);
            },
            Ok(bytes) => bytes,
        };
        if offset[0] == 0x45 && offset[1] == 0x4F && offset[2] == 0x46 {
            if let Ok(size) = r.bytes(3) {
                let ghost whole = out@;
                out.truncate(be24(size));
                assert(whole.take(whole.len() as int) =~= whole);
            }
            return Ok(out);
        }
        let offset: usize = be24(offset);
        let len: usize = match r.bytes(2) {
            Err(err) => {
                return Err(err);
            },
            Ok(bytes) => be16(bytes),
        };
        if len == 0 {
            let count: usize = match r.bytes(2) {
                Err(err) => {
                    return Err(err);
                },
                Ok(bytes) => be16(bytes),
            };
            let value: u8 = match r.byte() {
                Err(err) => {
                    return Err(err);
                },
                Ok(value) => value,
            };
            let run: Vec<u8> = vec![value; count];
            proof {
                assert(run@ =~= Seq::new(
                    be2(patch@, at + 5) as nat,
                    |i: int| patch@[at + 7],
                ));
            }
            write_at(&mut out, offset, run.as_slice());
        } else {
            match r.bytes(len) {
                Err(err) => {
                    return Err(err);
                },
                Ok(bytes) => write_at(&mut out, offset, bytes),
            }
        }
    }
}

/// Copies `data` into `out` at `offset`, growing it (with zeros) when a
/// record reaches past the end: IPS patches can extend a ROM.
fn write_at(out: &mut Vec<u8>, offset: usize, data: &[u8])
    requires
        offset <= 0xFF_FFFF,
        data@.len() <= 0xFFFF,
    ensures
        final(out)@ == written(old(out)@, offset as int, data@),
{
    let ghost before = out@;
    let end: usize = offset + data.len();
    if out.len() < end {
        out.resize(end, 0);
    }
    proof {
        assert(out@ =~= grown(before, end as int)) by {
            if before.len() < end {
                assert forall|i: int| 0 <= i < before.len() implies out@[i] == before[i] by {
                    assert(out@.subrange(0, before.len() as int)[i] == before[i]);
                }
            }
        }
    }
    let ghost room = out@;
    for i in 0..data.len()
        invariant
            end == offset + data@.len(),
            end <= room.len(),
            out@.len() == room.len(),
            forall|k: int| offset <= k < offset + i ==> out@[k] == data@[k - offset],
            forall|k: int|
                0 <= k < room.len() && !(offset <= k < offset + i) ==> out@[k] == room[k],
    {
        out[offset + i] = data[i];
    }
    assert(out@ =~= written(before, offset as int, data@));
}

/// Big-endian number from two bytes.
fn be16(bytes: &[u8]) -> (n: usize)
    requires
        bytes@.len() == 2,
    ensures
        n == be2(bytes@, 0),
{
    bytes[0] as usize * 256 + bytes[1] as usize
}

/// Big-endian number from three bytes.
fn be24(bytes: &[u8]) -> (n: usize)
    requires
        bytes@.len() == 3,
    ensures
        n == be3(bytes@, 0),
{
    bytes[0] as usize * 0x1_0000 + (bytes[1] as usize * 256 + bytes[2] as usize)
}

/// The sizes at the start of a UPS or BPS body.
fn read_sizes(rom: &[u8], r: &mut Reader) -> (target: core::result::Result<usize, PatchError>)
    requires
        old(r).wf(),
        old(r).pos == 4,
    ensures
        final(r).wf(),
        final(r).data@ == old(r).data@,
        match target {
            Err(err) => sizes(rom@, old(r).data@) == Err::<(int, int), PatchError>(err),
            Ok(target) => sizes(rom@, old(r).data@) == Ok::<(int, int), PatchError>(
                (target as int, final(r).pos as int),
            ),
        },
{
    let source_size: usize = match r.number() {
        Err(err) => {
            return Err(err);
        },
        Ok(n) => n,
    };
    let target_size: usize = match r.number() {
        Err(err) => {
            return Err(err);
        },
        Ok(n) => n,
    };
    if source_size != rom.len() {
        return Err(PatchError::WrongSource);
    }
    Ok(target_size)
}

/// UPS: sizes of source and target, then runs of "skip this many bytes,
/// XOR these in until a zero", then the three checksums.
fn ups(rom: &[u8], patch: &[u8]) -> (image: core::result::Result<Vec<u8>, PatchError>)
    ensures
        agrees(image, ups_patched(rom@, patch@)),
{
    let (body, target_crc) = match checked_body(rom, patch) {
        Err(err) => {
            return Err(err);
        },
        Ok(checked) => checked,
    };
    let mut r = Reader::at(body, 4);
    let target_size: usize = match read_sizes(rom, &mut r) {
        Err(err) => {
            return Err(err);
        },
        Ok(size) => size,
    };
    if target_size > isize::MAX as usize {
        return Err(PatchError::BadResult);
    }
    let mut out: Vec<u8> = slice_to_vec(rom);
    out.resize(target_size, 0);
    proof {
        let expected = grown(rom@, target_size as int).take(target_size as int);
        assert(out@.len() == expected.len());
        assert forall|i: int| 0 <= i < out@.len() implies out@[i] == expected[i] by {
            if target_size > rom@.len() && i < rom@.len() {
                assert(out@.subrange(0, rom@.len() as int)[i] == rom@[i]);
            }
        }
        assert(out@ =~= expected);
    }
    let ghost runs = ups_from(out@, body@, r.pos as int, 0, false);
    let mut pos: usize = 0;
    let mut in_run = false;
    while in_run || !r.is_empty()
        invariant
            r.wf(),
            r.data@ == body@,
            runs == ups_from(out@, body@, r.pos as int, pos, in_run),
            ups_patched(rom@, patch@) == match runs {
                Err(err) => Err::<Seq<u8>, PatchError>(err),
                Ok(image) => promised(image, patch@),
            },
        decreases body@.len() - r.pos,
    {
        if in_run {
            let x: u8 = match r.byte() {
                Err(err) => {
                    return Err(err);
                },
                Ok(x) => x,
            };
            if x == 0 {
                // The terminating zero stands for one unchanged byte.
                in_run = false;
            } else if pos < out.len() {
                out[pos] = out[pos] ^ x;
            }
            pos = pos.wrapping_add(1);
        } else {
            let skip: usize = match r.number() {
                Err(err) => {
                    return Err(err);
                },
                Ok(n) => n,
            };
            pos = pos.wrapping_add(skip);
            in_run = true;
        }
    }
    if crc32(out.as_slice()) != target_crc {
        return Err(PatchError::BadResult);
    }
    Ok(out)
}

/// Appends `from..from + len` of `source` to `out`.
fn append(out: &mut Vec<u8>, source: &[u8], from: usize, len: usize)
    requires
        from + len <= source@.len(),
    ensures
        final(out)@ == old(out)@ + source@.subrange(from as int, from + len),
{
    let ghost before = out@;
    for i in 0..len
        invariant
            from + len <= source.len(),
            out@ == before + source@.subrange(from as int, from + i),
    {
        out.push(source[from + i]);
        assert(out@ =~= before + source@.subrange(from as int, from + i + 1));
    }
}

/// Appends `len` bytes from `from` on of `out` to itself, byte by byte, as
/// the copy may overlap its own output (a run-length repeat).
fn extend_from_self(out: &mut Vec<u8>, from: usize, len: usize)
    requires
        from < old(out)@.len(),
        from + len <= usize::MAX,
    ensures
        final(out)@ == self_extended(old(out)@, from as int, len as int),
{
    let ghost before = out@;
    for i in 0..len
        invariant
            from < before.len(),
            from + len <= usize::MAX,
            out@.len() == before.len() + i,
            out@ == self_extended(before, from as int, i as int),
    {
        let b: u8 = out[from + i];
        out.push(b);
    }
}

/// BPS: sizes, metadata, then actions that build the target front to
/// back, then the three checksums.
fn bps(rom: &[u8], patch: &[u8]) -> (image: core::result::Result<Vec<u8>, PatchError>)
    ensures
        agrees(image, bps_patched(rom@, patch@)),
{
    let (body, target_crc) = match checked_body(rom, patch) {
        Err(err) => {
            return Err(err);
        },
        Ok(checked) => checked,
    };
    let mut r = Reader::at(body, 4);
    let target_size: usize = match read_sizes(rom, &mut r) {
        Err(err) => {
            return Err(err);
        },
        Ok(size) => size,
    };
    let metadata: usize = match r.number() {
        Err(err) => {
            return Err(err);
        },
        Ok(n) => n,
    };
    match r.bytes(metadata) {
        Err(err) => {
            return Err(err);
        },
        Ok(_) => {},
    }

    let mut out: Vec<u8> = Vec::new();
    let mut source_cursor: usize = 0;
    let mut target_cursor: usize = 0;
    let ghost start = BpsState {
        image: Seq::empty(),
        at: r.pos as int,
        source: 0,
        target: 0,
    };
    let ghost built = bps_from(rom@, body@, start, target_size as int);
    assert(out@ =~= start.image);
    while !r.is_empty()
        invariant
            r.wf(),
            r.data@ == body@,
            out@.len() <= target_size,
            built == bps_from(
                rom@,
                body@,
                BpsState {
                    image: out@,
                    at: r.pos as int,
                    source: source_cursor as int,
                    target: target_cursor as int,
                },
                target_size as int,
            ),
            bps_patched(rom@, patch@) == match built {
                Err(err) => Err::<Seq<u8>, PatchError>(err),
                Ok(image) => if image.len() != target_size {
                    Err::<Seq<u8>, PatchError>(PatchError::BadResult)
                } else {
                    promised(image, patch@)
                },
            },
        decreases body@.len() - r.pos,
    {
        match act(rom, &mut r, &mut out, &mut source_cursor, &mut target_cursor, target_size) {
            Err(err) => {
                return Err(err);
            },
            Ok(()) => {},
        }
    }
    if out.len() != target_size || crc32(out.as_slice()) != target_crc {
        return Err(PatchError::BadResult);
    }
    Ok(out)
}

/// Performs one BPS action.
fn act(
    rom: &[u8],
    r: &mut Reader,
    out: &mut Vec<u8>,
    source_cursor: &mut usize,
    target_cursor: &mut usize,
    limit: usize,
) -> (done: core::result::Result<(), PatchError>)
    requires
        old(r).wf(),
        old(out)@.len() <= limit,
    ensures
        final(r).wf(),
        final(r).data@ == old(r).data@,
        final(out)@.len() <= limit,
        ({
            let before = BpsState {
                image: old(out)@,
                at: old(r).pos as int,
                source: *old(source_cursor) as int,
                target: *old(target_cursor) as int,
            };
            match done {
                Err(err) => bps_action(rom@, old(r).data@, before, limit as int) == Err::<
                    BpsState,
                    PatchError,
                >(err),
                Ok(()) => final(r).pos > old(r).pos && bps_action(
                    rom@,
                    old(r).data@,
                    before,
                    limit as int,
                ) == Ok::<BpsState, PatchError>(
                    (BpsState {
                        image: final(out)@,
                        at: final(r).pos as int,
                        source: *final(source_cursor) as int,
                        target: *final(target_cursor) as int,
                    }),
                ),
            }
        }),
{
    let action: usize = match r.number() {
        Err(err) => {
            return Err(err);
        },
        Ok(n) => n,
    };
    let len: usize = action / 4 + 1;
    let kind: usize = action % 4;
    match kind {
        // SourceRead: the source's bytes at the output's own offset.
        0 => {
            let at: usize = out.len();
            if at > rom.len() || len > rom.len() - at {
                return Err(PatchError::OutOfRange);
            }
            if len > limit - out.len() {
                return Err(PatchError::BadResult);
            }
            append(out, rom, at, len);
        },
        // TargetRead: literal bytes from the patch.
        1 => {
            match r.bytes(len) {
                Err(err) => {
                    return Err(err);
                },
                Ok(bytes) => {
                    if len > limit - out.len() {
                        return Err(PatchError::BadResult);
                    }
                    append(out, bytes, 0, len);
                    assert(bytes@.subrange(0, len as int) =~= bytes@);
                },
            }
        },
        // SourceCopy: from anywhere in the source.
        2 => {
            let delta: usize = match r.number() {
                Err(err) => {
                    return Err(err);
                },
                Ok(n) => n,
            };
            let from: usize = match moved(*source_cursor, delta) {
                Err(err) => {
                    return Err(err);
                },
                Ok(from) => from,
            };
            if from > rom.len() || len > rom.len() - from {
                return Err(PatchError::OutOfRange);
            }
            if len > limit - out.len() {
                return Err(PatchError::BadResult);
            }
            append(out, rom, from, len);
            *source_cursor = from + len;
        },
        // TargetCopy: from what has been written.
        _ => {
            let delta: usize = match r.number() {
                Err(err) => {
                    return Err(err);
                },
                Ok(n) => n,
            };
            let from: usize = match moved(*target_cursor, delta) {
                Err(err) => {
                    return Err(err);
                },
                Ok(from) => from,
            };
            if from >= out.len() {
                return Err(PatchError::OutOfRange);
            }
            proof {
                lemma_self_extended_len(out@, from as int, len as int);
            }
            if len > limit - out.len() {
                return Err(PatchError::BadResult);
            }
            extend_from_self(out, from, len);
            *target_cursor = from + len;
        },
    }
    Ok(())
}

/// A BPS cursor move: the low bit is the sign, the rest the distance.
fn moved(cursor: usize, delta: usize) -> (position: core::result::Result<usize, PatchError>)
    ensures
        match position {
            Ok(position) => cursor_moved(cursor as int, delta as int) == Some(position as int),
            Err(err) => cursor_moved(cursor as int, delta as int) is None && err
                == PatchError::OutOfRange,
        },
{
    let distance: usize = delta / 2;
    let position = if delta % 2 == 0 {
        cursor.checked_add(distance)
    } else {
        cursor.checked_sub(distance)
    };
    match position {
        Some(position) => Ok(position),
        None => Err(PatchError::OutOfRange),
    }
}

/// The patch without its footer and the target's checksum, once the
/// footer's own checksum and that of `rom` have been verified.
fn checked_body<'a>(rom: &[u8], patch: &'a [u8]) -> (checked: core::result::Result<
    (&'a [u8], u32),
    PatchError,
>)
    ensures
        match checked {
            Err(err) => footer_error(rom@, patch@) == Some(err),
            Ok((body, target_crc)) => footer_error(rom@, patch@) is None && body@ == patch@.take(
                patch@.len() - 12,
            ) && target_crc == word_at(patch@, patch@.len() - 8),
        },
{
    let len: usize = patch.len();
    if len < 4 + FOOTER_LEN {
        return Err(PatchError::Truncated);
    }
    let covered = slice_subrange(patch, 0, len - 4);
    if crc32(covered) != get32(patch, len - 4) {
        return Err(PatchError::Damaged);
    }
    if crc32(rom) != get32(patch, len - 12) {
        return Err(PatchError::WrongSource);
    }
    Ok((slice_subrange(patch, 0, len - FOOTER_LEN), get32(patch, len - 8)))
}

/// Cursor over a patch's bytes.
#[derive(Debug)]
pub struct Reader<'a> {
    /// All of the bytes.
    pub data: &'a [u8],
    /// The next byte to read.
    pub pos: usize,
}

impl<'a> Reader<'a> {
    /// The cursor is within the bytes.
    pub open spec fn wf(&self) -> bool {
        self.pos <= self.data@.len()
    }

    /// A cursor at the start of `data`.
    #[must_use]
    pub fn new(data: &'a [u8]) -> (reader: Self)
        ensures
            reader.wf(),
            reader.data@ == data@,
            reader.pos == 0,
    {
        Self { data, pos: 0 }
    }

    /// A cursor at position `pos` of `data`.
    #[must_use]
    pub fn at(data: &'a [u8], pos: usize) -> (reader: Self)
        requires
            pos <= data@.len(),
        ensures
            reader.wf(),
            reader.data@ == data@,
            reader.pos == pos,
    {
        Self { data, pos }
    }

    /// Whether every byte has been read.
    #[must_use]
    pub fn is_empty(&self) -> (empty: bool)
        requires
            self.wf(),
        ensures
            empty == (self.pos == self.data@.len()),
    {
        self.pos == self.data.len()
    }

    /// Reads one byte.
    pub fn byte(&mut self) -> (byte: core::result::Result<u8, PatchError>)
        requires
            old(self).wf(),
        ensures
            final(self).wf(),
            final(self).data@ == old(self).data@,
            match byte {
                Ok(b) => old(self).pos < old(self).data@.len() && b
                    == old(self).data@[old(self).pos as int] && final(self).pos == old(self).pos
                    + 1,
                Err(err) => old(self).pos == old(self).data@.len() && err
                    == PatchError::Truncated && final(self).pos == old(self).pos,
            },
    {
        if self.pos == self.data.len() {
            return Err(PatchError::Truncated);
        }
        let b: u8 = self.data[self.pos];
        self.pos = self.pos + 1;
        Ok(b)
    }

    /// Reads `n` bytes.
    pub fn bytes(&mut self, n: usize) -> (bytes: core::result::Result<&'a [u8], PatchError>)
        requires
            old(self).wf(),
        ensures
            final(self).wf(),
            final(self).data@ == old(self).data@,
            match bytes {
                Ok(b) => old(self).pos + n <= old(self).data@.len() && b@
                    == old(self).data@.subrange(old(self).pos as int, old(self).pos + n)
                    && final(self).pos == old(self).pos + n,
                Err(err) => old(self).pos + n > old(self).data@.len() && err
                    == PatchError::Truncated && final(self).pos == old(self).pos,
            },
    {
        if n > self.data.len() - self.pos {
            return Err(PatchError::Truncated);
        }
        let taken = slice_subrange(self.data, self.pos, self.pos + n);
        self.pos = self.pos + n;
        Ok(taken)
    }

    /// The variable-length number UPS and BPS share: seven bits per
    /// byte, low first, the top bit ending it, with one added per
    /// continuation so that every number has exactly one encoding.
    pub fn number(&mut self) -> (number: core::result::Result<usize, PatchError>)
        requires
            old(self).wf(),
        ensures
            final(self).wf(),
            final(self).data@ == old(self).data@,
            match number {
                Ok(n) => number_at(old(self).data@, old(self).pos as int) == Some(
                    (n as int, final(self).pos as int),
                ) && final(self).pos > old(self).pos,
                Err(err) => number_at(old(self).data@, old(self).pos as int) is None && err
                    == PatchError::Truncated,
            },
    {
        let ghost start = self.pos as int;
        let ghost p = self.data@;
        let mut n: usize = 0;
        let mut shift: usize = 1;
        loop
            invariant
                self.wf(),
                self.data@ == p,
                p == old(self).data@,
                start == old(self).pos,
                start <= self.pos,
                number_at(p, start) == number_from(
                    p,
                    self.pos as int,
                    n as int,
                    shift as int,
                ),
            decreases p.len() - self.pos,
        {
            let b: u8 = match self.byte() {
                Err(err) => {
                    return Err(err);
                },
                Ok(b) => b,
            };
            let digit: usize = match ((b & 0x7F) as usize).checked_mul(shift) {
                None => {
                    return Err(PatchError::Truncated);
                },
                Some(digit) => digit,
            };
            n =
            match n.checked_add(digit) {
                None => {
                    return Err(PatchError::Truncated);
                },
                Some(sum) => sum,
            };
            if b & 0x80 != 0 {
                return Ok(n);
            }
            shift =
            match shift.checked_mul(128) {
                None => {
                    return Err(PatchError::Truncated);
                },
                Some(next) => next,
            };
            n =
            match n.checked_add(shift) {
                None => {
                    return Err(PatchError::Truncated);
                },
                Some(sum) => sum,
            };
        }
    }
}

/// CRC-32 (IEEE 802.3, the zlib one), bit by bit: patches are applied
/// once per load, so a table buys nothing.
#[must_use]
pub fn crc32(data: &[u8]) -> (crc: u32)
    ensures
        crc == checksum(data@),
{
    let mut crc: u32 = 0xFFFF_FFFF;
    assert(data@.take(0) =~= Seq::<u8>::empty());
    for i in 0..data.len()
        invariant
            crc == crc_register(data@.take(i as int)),
    {
        crc = crc ^ (data[i] as u32);
        let ghost start = crc;
        for bit in 0..8u32
            invariant
                crc == crc_bits(start, bit as int),
        {
            crc =
            if crc & 1 == 0 {
                crc >> 1
            } else {
                (crc >> 1) ^ 0xEDB8_8320
            };
        }
        proof {
            let longer = data@.take(i + 1);
            assert(longer.drop_last() =~= data@.take(i as int));
            assert(longer.last() == data@[i as int]);
        }
    }
    assert(data@.take(data@.len() as int) =~= data@);
    !crc
}

/// A UPS or BPS patch that applies belongs to the ROM, is undamaged, and
/// gives the image that its author saw, going by their checksums.
pub proof fn law_applied_patch_is_vouched_for(rom: Seq<u8>, patch: Seq<u8>)
    requires
        format_of(patch) == Some(Format::Ups) || format_of(patch) == Some(Format::Bps),
        patched(rom, patch) is Ok,
    ensures
        patch.len() >= 16,
        checksum(patch.take(patch.len() - 4)) == word_at(patch, patch.len() - 4),
        checksum(rom) == word_at(patch, patch.len() - 12),
        checksum(patched(rom, patch)->Ok_0) == word_at(patch, patch.len() - 8),
{
}

/// A UPS or BPS patch is refused for every ROM that does not have the checksum
/// that it names.
pub proof fn law_wrong_rom_is_refused(rom: Seq<u8>, patch: Seq<u8>)
    requires
        format_of(patch) == Some(Format::Ups) || format_of(patch) == Some(Format::Bps),
        patch.len() >= 16,
        checksum(patch.take(patch.len() - 4)) == word_at(patch, patch.len() - 4),
        checksum(rom) != word_at(patch, patch.len() - 12),
    ensures
        patched(rom, patch) == Err::<Seq<u8>, PatchError>(PatchError::WrongSource),
{
}

} // verus!
