//! What patches do to an image, said of how they are encoded.

use vstd::prelude::*;

use crate::bytes::word_at;
use crate::patch::{
    bps_action, bps_from, bps_patched, checksum, encoded_number, footer_error, format_of, grown,
    ips_from, law_number_round_trip, number_at, patched, self_extended, sizes, ups_from,
    ups_patched, written, xored, BpsState, Format, PatchError,
};

verus! {

broadcast use crate::bits::group_mask_bounds;

/// Whether `after` is `before` with `data` placed at `offset`: longer only
/// where `data` reaches past the end, with zeros in a gap, and otherwise the
/// same.
pub open spec fn placed(before: Seq<u8>, offset: int, data: Seq<u8>, after: Seq<u8>) -> bool {
    &&& after.len() == if before.len() < offset + data.len() {
        offset + data.len()
    } else {
        before.len() as int
    }
    &&& forall|i: int|
        0 <= i < after.len() ==> #[trigger] after[i] == if offset <= i < offset + data.len() {
            data[i - offset]
        } else if i < before.len() {
            before[i]
        } else {
            0
        }
}

/// The three bytes of an IPS offset or size, most significant first.
pub open spec fn three_bytes(n: int) -> Seq<u8> {
    seq![(n / 0x1_0000) as u8, (n / 0x100 % 0x100) as u8, (n % 0x100) as u8]
}

/// The two bytes of an IPS length, most significant first.
pub open spec fn two_bytes(n: int) -> Seq<u8> {
    seq![(n / 0x100) as u8, (n % 0x100) as u8]
}

/// An IPS record that places `data` at `offset`.
pub open spec fn ips_record(offset: int, data: Seq<u8>) -> Seq<u8> {
    three_bytes(offset) + two_bytes(data.len() as int) + data
}

/// An IPS record that repeats `byte` from `offset` on.
pub open spec fn ips_run(offset: int, count: int, byte: u8) -> Seq<u8> {
    three_bytes(offset) + two_bytes(0) + two_bytes(count) + seq![byte]
}

/// Whether `part` stands at `at` in `whole`.
pub open spec fn stands_at(whole: Seq<u8>, at: int, part: Seq<u8>) -> bool {
    &&& 0 <= at
    &&& at + part.len() <= whole.len()
    &&& forall|i: int| 0 <= i < part.len() ==> whole[at + i] == #[trigger] part[i]
}

/// A record of an IPS patch places its data at its offset, changes nothing
/// else, and is followed by the next record. The offset that reads `EOF`
/// cannot be used.
pub proof fn law_ips_record(
    image: Seq<u8>,
    p: Seq<u8>,
    at: int,
    offset: int,
    data: Seq<u8>,
    after: Seq<u8>,
)
    requires
        0 <= offset < 0x100_0000,
        offset != 0x45_4F46,
        0 < data.len() < 0x1_0000,
        stands_at(p, at, ips_record(offset, data)),
        placed(image, offset, data, after),
    ensures
        ips_from(image, p, at) == ips_from(after, p, at + 5 + data.len()),
{
    let record = ips_record(offset, data);
    let n = data.len() as int;
    assert(record[0] == (offset / 0x1_0000) as u8);
    assert(record[1] == (offset / 0x100 % 0x100) as u8);
    assert(record[2] == (offset % 0x100) as u8);
    assert(record[3] == (n / 0x100) as u8);
    assert(record[4] == (n % 0x100) as u8);
    assert(p[at + 0] == record[0] && p[at + 1] == record[1] && p[at + 2] == record[2]);
    assert(p[at + 3] == record[3] && p[at + 4] == record[4]);
    assert(p.subrange(at + 5, at + 5 + n) =~= data) by {
        assert forall|i: int| 0 <= i < n implies p[at + 5 + i] == data[i] by {
            assert(record[5 + i] == data[i]);
            assert(p[at + (5 + i)] == record[5 + i]);
        }
    }
    assert(written(image, offset, data) =~= after);
}

/// A run of an IPS patch places its byte as often as it says.
pub proof fn law_ips_run(
    image: Seq<u8>,
    p: Seq<u8>,
    at: int,
    offset: int,
    count: int,
    byte: u8,
    after: Seq<u8>,
)
    requires
        0 <= offset < 0x100_0000,
        offset != 0x45_4F46,
        0 <= count < 0x1_0000,
        stands_at(p, at, ips_run(offset, count, byte)),
        placed(image, offset, Seq::new(count as nat, |i: int| byte), after),
    ensures
        ips_from(image, p, at) == ips_from(after, p, at + 8),
{
    let record = ips_run(offset, count, byte);
    assert(record[0] == (offset / 0x1_0000) as u8);
    assert(record[1] == (offset / 0x100 % 0x100) as u8);
    assert(record[2] == (offset % 0x100) as u8);
    assert(record[3] == 0 && record[4] == 0);
    assert(record[5] == (count / 0x100) as u8);
    assert(record[6] == (count % 0x100) as u8);
    assert(record[7] == byte);
    assert(p[at + 0] == record[0] && p[at + 1] == record[1] && p[at + 2] == record[2]);
    assert(p[at + 3] == record[3] && p[at + 4] == record[4] && p[at + 5] == record[5]);
    assert(p[at + 6] == record[6] && p[at + 7] == record[7]);
    let run = Seq::new(count as nat, |i: int| p[at + 7]);
    assert(run =~= Seq::new(count as nat, |i: int| byte));
    assert(written(image, offset, run) =~= after);
}

/// `EOF` ends an IPS patch. Three more bytes are a size that the image is cut
/// to, where it is longer.
pub proof fn law_ips_end(image: Seq<u8>, p: Seq<u8>, at: int, size: int)
    requires
        stands_at(p, at, seq![0x45u8, 0x4F, 0x46]),
        0 <= size < 0x100_0000,
    ensures
        p.len() < at + 6 ==> ips_from(image, p, at) == Ok::<Seq<u8>, PatchError>(image),
        stands_at(p, at + 3, three_bytes(size)) ==> ips_from(image, p, at) == Ok::<
            Seq<u8>,
            PatchError,
        >(
            if size < image.len() {
                image.take(size)
            } else {
                image
            },
        ),
{
    let end = seq![0x45u8, 0x4F, 0x46];
    assert(p[at + 0] == end[0] && p[at + 1] == end[1] && p[at + 2] == end[2]);
    if stands_at(p, at + 3, three_bytes(size)) {
        let bytes = three_bytes(size);
        assert(p[at + 3 + 0] == bytes[0] && p[at + 3 + 1] == bytes[1] && p[at + 3 + 2] == bytes[2]);
    }
}

/// A whole IPS patch of one record changes exactly the bytes that it is for.
pub proof fn law_ips_patch(rom: Seq<u8>, offset: int, data: Seq<u8>, after: Seq<u8>)
    requires
        0 <= offset < 0x100_0000,
        offset != 0x45_4F46,
        0 < data.len() < 0x1_0000,
        placed(rom, offset, data, after),
    ensures
        patched(
            rom,
            seq![0x50u8, 0x41, 0x54, 0x43, 0x48] + ips_record(offset, data) + seq![
                0x45u8,
                0x4F,
                0x46,
            ],
        ) == Ok::<Seq<u8>, PatchError>(after),
{
    let magic = seq![0x50u8, 0x41, 0x54, 0x43, 0x48];
    let record = ips_record(offset, data);
    let p = magic + record + seq![0x45u8, 0x4F, 0x46];
    assert(p.take(5) =~= magic);
    assert(magic.is_prefix_of(p));
    assert(format_of(p) == Some(Format::Ips));
    assert forall|i: int| 0 <= i < record.len() implies p[5 + i] == #[trigger] record[i] by {}
    law_ips_record(rom, p, 5, offset, data, after);
    let at = 10 + data.len();
    law_ips_end(after, p, at as int, 0);
}

/// A patch is recognised by its first bytes.
pub proof fn law_formats(p: Seq<u8>)
    requires
        p.len() >= 5,
    ensures
        (p[0] == 0x50 && p[1] == 0x41 && p[2] == 0x54 && p[3] == 0x43 && p[4] == 0x48) ==> format_of(
            p,
        ) == Some(Format::Ips),
        (p[0] == 0x55 && p[1] == 0x50 && p[2] == 0x53 && p[3] == 0x31) ==> format_of(p) == Some(
            Format::Ups,
        ),
        (p[0] == 0x42 && p[1] == 0x50 && p[2] == 0x53 && p[3] == 0x31) ==> format_of(p) == Some(
            Format::Bps,
        ),
{
    assert(p.subrange(0, 5) =~= seq![p[0], p[1], p[2], p[3], p[4]]);
    assert(p.subrange(0, 4) =~= seq![p[0], p[1], p[2], p[3]]);
    if p[0] != 0x50 {
        assert(p.subrange(0, 5)[0] != crate::patch::ips_magic()[0]);
    }
    if p[0] != 0x55 {
        assert(p.subrange(0, 4)[0] != crate::patch::ups_magic()[0]);
    }
    if p[0] == 0x50 && p[1] == 0x41 && p[2] == 0x54 && p[3] == 0x43 && p[4] == 0x48 {
        assert(p.subrange(0, 5) =~= crate::patch::ips_magic());
    }
    if p[0] == 0x55 && p[1] == 0x50 && p[2] == 0x53 && p[3] == 0x31 {
        assert(p.subrange(0, 4) =~= crate::patch::ups_magic());
    }
    if p[0] == 0x42 && p[1] == 0x50 && p[2] == 0x53 && p[3] == 0x31 {
        assert(p.subrange(0, 4) =~= crate::patch::bps_magic());
    }
}

/// Whether `after` is `before` with `bits` exclusive-or-ed in from `pos` on,
/// as far as it reaches.
pub open spec fn flipped(before: Seq<u8>, pos: int, bits: Seq<u8>, after: Seq<u8>) -> bool {
    &&& after.len() == before.len()
    &&& forall|i: int|
        0 <= i < after.len() ==> #[trigger] after[i] == if pos <= i < pos + bits.len() {
            before[i] ^ bits[i - pos]
        } else {
            before[i]
        }
}

/// A run of a UPS patch flips the bits of its bytes, up to the zero that ends
/// it, and the cursor then stands behind one unchanged byte more.
pub proof fn law_ups_run(
    image: Seq<u8>,
    p: Seq<u8>,
    at: int,
    pos: usize,
    bits: Seq<u8>,
    after: Seq<u8>,
)
    requires
        stands_at(p, at, bits + seq![0u8]),
        forall|i: int| 0 <= i < bits.len() ==> bits[i] != 0,
        pos + bits.len() < usize::MAX,
        flipped(image, pos as int, bits, after),
    ensures
        ups_from(image, p, at, pos, true) == ups_from(
            after,
            p,
            at + bits.len() + 1,
            (pos + bits.len() + 1) as usize,
            false,
        ),
    decreases bits.len(),
{
    let whole = bits + seq![0u8];
    assert(p[at + 0] == whole[0]);
    if bits.len() == 0 {
        assert(after =~= image);
    } else {
        let next = xored(image, pos, bits[0]);
        let rest = bits.skip(1);
        assert forall|i: int| 0 <= i < rest.len() + 1 implies p[at + 1 + i] == #[trigger] (rest
            + seq![0u8])[i] by {
            assert(p[at + (i + 1)] == whole[i + 1]);
        }
        assert forall|i: int| 0 <= i < after.len() implies #[trigger] after[i] == if pos + 1 <= i
            < pos + 1 + rest.len() {
            next[i] ^ rest[i - (pos + 1)]
        } else {
            next[i]
        } by {
            if pos + 1 <= i < pos + 1 + rest.len() {
                assert(rest[i - (pos + 1)] == bits[i - pos]);
            }
        }
        law_ups_run(next, p, at + 1, (pos + 1) as usize, rest, after);
    }
}

/// Between runs a UPS patch skips as many bytes as its number says, and where
/// it ends the image is done.
pub proof fn law_ups_skip(image: Seq<u8>, p: Seq<u8>, at: int, pos: usize, skip: usize)
    requires
        stands_at(p, at, encoded_number(skip as int)),
        pos + skip <= usize::MAX,
    ensures
        ups_from(image, p, at, pos, false) == ups_from(
            image,
            p,
            at + encoded_number(skip as int).len(),
            (pos + skip) as usize,
            true,
        ),
        ups_from(image, p, p.len() as int, pos, false) == Ok::<Seq<u8>, PatchError>(image),
{
    let n = encoded_number(skip as int);
    assert(n.len() > 0);
    assert(p.subrange(at, at + n.len()) =~= n);
    law_number_round_trip(p, at, skip);
}

/// Flipping the same bits again gives the image back, so that a UPS run that
/// turns one image into another also turns that into the first.
pub proof fn law_ups_run_undoes_itself(
    image: Seq<u8>,
    pos: int,
    bits: Seq<u8>,
    after: Seq<u8>,
)
    requires
        flipped(image, pos, bits, after),
    ensures
        flipped(after, pos, bits, image),
{
    assert forall|i: int| 0 <= i < image.len() implies #[trigger] image[i] == if pos <= i < pos
        + bits.len() {
        after[i] ^ bits[i - pos]
    } else {
        after[i]
    } by {
        assert(after[i] == if pos <= i < pos + bits.len() {
            image[i] ^ bits[i - pos]
        } else {
            image[i]
        });
        if pos <= i < pos + bits.len() {
            lemma_flip_twice(image[i], bits[i - pos]);
        }
    }
}

proof fn lemma_flip_twice(a: u8, b: u8)
    by (bit_vector)
    ensures
        (a ^ b) ^ b == a,
{
}

/// UPS runs never change the length of the image.
proof fn lemma_ups_len(image: Seq<u8>, p: Seq<u8>, at: int, pos: usize, in_run: bool)
    ensures
        ups_from(image, p, at, pos, in_run) matches Ok(after) ==> after.len() == image.len(),
    decreases p.len() - at,
{
    if in_run {
        if at < p.len() {
            lemma_ups_len(image, p, at + 1, ((pos + 1) % (usize::MAX + 1)) as usize, false);
            lemma_ups_len(
                xored(image, pos, p[at]),
                p,
                at + 1,
                ((pos + 1) % (usize::MAX + 1)) as usize,
                true,
            );
            assert(pos.wrapping_add(1) == ((pos + 1) % (usize::MAX + 1)) as usize);
        }
    } else if at < p.len() {
        match number_at(p, at) {
            Some((skip, next)) => {
                if at < next <= p.len() {
                    lemma_ups_len(image, p, next, pos.wrapping_add(skip as usize), true);
                }
            },
            None => {},
        }
    }
}

/// An image that a UPS patch makes has the size that the patch names, and
/// the patch names the size of the ROM too.
pub proof fn law_ups_sizes(rom: Seq<u8>, patch: Seq<u8>, source: usize, target: usize)
    requires
        patch.len() >= 16,
        stands_at(
            patch.take(patch.len() - 12),
            4,
            encoded_number(source as int) + encoded_number(target as int),
        ),
        ups_patched(rom, patch) is Ok,
    ensures
        rom.len() == source,
        ups_patched(rom, patch)->Ok_0.len() == target,
{
    let body = patch.take(patch.len() - 12);
    lemma_sizes(rom, body, source, target);
    let (size, at) = sizes(rom, body)->Ok_0;
    lemma_ups_len(grown(rom, size).take(size), body, at, 0, false);
}

proof fn lemma_sizes(rom: Seq<u8>, body: Seq<u8>, source: usize, target: usize)
    requires
        stands_at(body, 4, encoded_number(source as int) + encoded_number(target as int)),
    ensures
        sizes(rom, body) matches Ok(found) ==> rom.len() == source && found.0 == target,
{
    let (a, b) = (encoded_number(source as int), encoded_number(target as int));
    assert forall|i: int| 0 <= i < a.len() implies body[4 + i] == a[i] by {
        assert((a + b)[i] == a[i]);
    }
    assert(body.subrange(4, 4 + a.len() as int) =~= a);
    law_number_round_trip(body, 4, source);
    let at = 4 + a.len() as int;
    assert forall|i: int| 0 <= i < b.len() implies body[at + i] == b[i] by {
        assert((a + b)[a.len() + i] == b[i]);
        assert(body[4 + (a.len() + i)] == (a + b)[a.len() + i]);
    }
    assert(body.subrange(at, at + b.len()) =~= b);
    law_number_round_trip(body, at, target);
}

/// The number of a BPS action of `kind` and `len`, and of the move of a
/// cursor by `by`, forwards or back.
pub open spec fn bps_number(kind: int, len: int) -> int {
    4 * (len - 1) + kind
}

/// The number of a move by `by`: twice the distance, and one more where it
/// goes back.
pub open spec fn move_number(by: int) -> int {
    if by >= 0 {
        2 * by
    } else {
        -2 * by + 1
    }
}

/// The four actions of a BPS patch, each of which appends `len` bytes: from
/// the source at the same place; from the patch; from the source at a cursor
/// that moves first; from what has been written at another one, where bytes
/// may be repeated that the action itself has written. Both cursors stand
/// behind what was copied.
pub proof fn law_bps_actions(
    rom: Seq<u8>,
    p: Seq<u8>,
    s: BpsState,
    limit: int,
    kind: int,
    len: int,
    by: int,
)
    requires
        0 <= kind < 4,
        0 < len,
        bps_number(kind, len) <= usize::MAX,
        -isize::MAX / 2 <= by <= isize::MAX / 2,
        0 <= s.source,
        0 <= s.target,
        s.image.len() + len <= limit,
        stands_at(p, s.at, encoded_number(bps_number(kind, len))),
        kind >= 2 ==> stands_at(
            p,
            s.at + encoded_number(bps_number(kind, len)).len(),
            encoded_number(move_number(by)),
        ),
    ensures
        ({
            let at = s.at + encoded_number(bps_number(kind, len)).len();
            let behind = at + encoded_number(move_number(by)).len();
            let n = s.image.len() as int;
            let next = bps_action(rom, p, s, limit);
            &&& kind == 0 && n + len <= rom.len() ==> {
                &&& next matches Ok(t) && t.at == at && t.source == s.source && t.target
                    == s.target && t.image == s.image + rom.subrange(n, n + len)
            }
            &&& kind == 1 && at + len <= p.len() ==> {
                &&& next matches Ok(t) && t.at == at + len && t.source == s.source && t.target
                    == s.target && t.image == s.image + p.subrange(at, at + len)
            }
            &&& kind == 2 && 0 <= s.source + by && s.source + by + len <= rom.len()
                && rom.len() <= usize::MAX ==> {
                &&& next matches Ok(t) && t.at == behind && t.source == s.source + by + len
                    && t.target == s.target && t.image == s.image + rom.subrange(
                    s.source + by,
                    s.source + by + len,
                )
            }
            &&& kind == 3 && 0 <= s.target + by < n && n <= usize::MAX ==> {
                &&& next matches Ok(t) && t.at == behind && t.target == s.target + by + len
                    && t.source == s.source && t.image.len() == n + len && t.image.take(n)
                    == s.image && forall|i: int|
                    0 <= i < len ==> #[trigger] t.image[n + i] == t.image[s.target + by + i]
            }
        }),
{
    let action = bps_number(kind, len);
    let e = encoded_number(action);
    assert(p.subrange(s.at, s.at + e.len()) =~= e);
    law_number_round_trip(p, s.at, action as usize);
    let at = s.at + e.len();
    assert(action / 4 + 1 == len && action % 4 == kind);
    if kind >= 2 {
        let m = encoded_number(move_number(by));
        assert(p.subrange(at as int, at + m.len()) =~= m);
        law_number_round_trip(p, at as int, move_number(by) as usize);
        if kind == 3 && 0 <= s.target + by < s.image.len() {
            lemma_self_extended(s.image, s.target + by, len);
        }
    }
}

proof fn lemma_self_extended(image: Seq<u8>, from: int, count: int)
    requires
        0 <= from < image.len(),
        0 <= count,
    ensures
        ({
            let after = self_extended(image, from, count);
            &&& after.len() == image.len() + count
            &&& after.take(image.len() as int) == image
            &&& forall|i: int|
                0 <= i < count ==> #[trigger] after[image.len() + i] == after[from + i]
        }),
    decreases count,
{
    let after = self_extended(image, from, count);
    if count > 0 {
        lemma_self_extended(image, from, count - 1);
        let before = self_extended(image, from, count - 1);
        assert(after.take(image.len() as int) =~= before.take(image.len() as int));
        assert forall|i: int| 0 <= i < count implies #[trigger] after[image.len() + i]
            == after[from + i] by {
            if i < count - 1 {
                assert(before[image.len() + i] == before[from + i]);
            }
        }
    } else {
        assert(after.take(image.len() as int) =~= image);
    }
}

/// A UPS patch without runs gives the ROM cut or extended with zeros to the
/// size that it names, if that is what its checksums say.
pub proof fn law_ups_resizes(rom: Seq<u8>, patch: Seq<u8>, target: usize)
    requires
        patch.len() >= 16,
        rom.len() <= usize::MAX,
        target <= isize::MAX,
        patch.len() == 16 + encoded_number(rom.len() as int).len() + encoded_number(
            target as int,
        ).len(),
        stands_at(patch, 4, encoded_number(rom.len() as int) + encoded_number(target as int)),
        footer_error(rom, patch) is None,
    ensures
        ({
            let image = Seq::new(
                target as nat,
                |i: int|
                    if i < rom.len() {
                        rom[i]
                    } else {
                        0u8
                    },
            );
            checksum(image) == word_at(patch, patch.len() - 8) ==> ups_patched(rom, patch) == Ok::<
                Seq<u8>,
                PatchError,
            >(image)
        }),
{
    let body = patch.take(patch.len() - 12);
    let source = rom.len() as usize;
    let both = encoded_number(source as int) + encoded_number(target as int);
    assert forall|i: int| 0 <= i < both.len() implies body[4 + i] == #[trigger] both[i] by {
        assert(patch[4 + i] == both[i]);
    }
    lemma_sizes(rom, body, source, target);
    lemma_sizes_found(rom, body, source, target);
    let image = Seq::new(
        target as nat,
        |i: int|
            if i < rom.len() {
                rom[i]
            } else {
                0u8
            },
    );
    assert(grown(rom, target as int).take(target as int) =~= image);
}

proof fn lemma_sizes_found(rom: Seq<u8>, body: Seq<u8>, source: usize, target: usize)
    requires
        stands_at(body, 4, encoded_number(source as int) + encoded_number(target as int)),
        rom.len() == source,
    ensures
        sizes(rom, body) == Ok::<(int, int), PatchError>(
            (
                target as int,
                4 + encoded_number(source as int).len() + encoded_number(target as int).len() as int,
            ),
        ),
{
    let (a, b) = (encoded_number(source as int), encoded_number(target as int));
    assert forall|i: int| 0 <= i < a.len() implies body[4 + i] == a[i] by {
        assert((a + b)[i] == a[i]);
    }
    assert(body.subrange(4, 4 + a.len() as int) =~= a);
    law_number_round_trip(body, 4, source);
    let at = 4 + a.len() as int;
    assert forall|i: int| 0 <= i < b.len() implies body[at + i] == b[i] by {
        assert((a + b)[a.len() + i] == b[i]);
        assert(body[4 + (a.len() + i)] == (a + b)[a.len() + i]);
    }
    assert(body.subrange(at, at + b.len()) =~= b);
    law_number_round_trip(body, at, target);
}

/// A BPS patch whose one action is to take the whole image from the patch
/// gives that image, whatever the ROM and whatever metadata it carries, if
/// that is what its checksums say.
pub proof fn law_bps_patch(rom: Seq<u8>, patch: Seq<u8>, metadata: Seq<u8>, data: Seq<u8>)
    requires
        rom.len() <= usize::MAX,
        metadata.len() <= usize::MAX,
        0 < data.len(),
        bps_number(1, data.len() as int) <= usize::MAX,
        ({
            let start = encoded_number(rom.len() as int) + encoded_number(data.len() as int);
            let rest = encoded_number(metadata.len() as int) + metadata;
            let action = encoded_number(bps_number(1, data.len() as int));
            &&& patch.len() == 16 + start.len() + rest.len() + action.len() + data.len()
            &&& stands_at(patch, 4, start)
            &&& stands_at(patch, 4 + start.len() as int, rest)
            &&& stands_at(patch, 4 + start.len() + rest.len() as int, action)
            &&& stands_at(patch, 4 + start.len() + rest.len() + action.len() as int, data)
        }),
        footer_error(rom, patch) is None,
        checksum(data) == word_at(patch, patch.len() - 8),
    ensures
        bps_patched(rom, patch) == Ok::<Seq<u8>, PatchError>(data),
{
    let body = patch.take(patch.len() - 12);
    let start = encoded_number(rom.len() as int) + encoded_number(data.len() as int);
    let count = encoded_number(metadata.len() as int);
    let rest = count + metadata;
    let action = encoded_number(bps_number(1, data.len() as int));
    assert forall|i: int| 0 <= i < start.len() implies body[4 + i] == #[trigger] start[i] by {
        assert(patch[4 + i] == start[i]);
    }
    lemma_sizes_found(rom, body, rom.len() as usize, data.len() as usize);
    let at = 4 + start.len() as int;
    assert forall|i: int| 0 <= i < count.len() implies body[at + i] == count[i] by {
        assert(rest[i] == count[i]);
        assert(patch[at + i] == rest[i]);
    }
    assert(body.subrange(at, at + count.len()) =~= count);
    law_number_round_trip(body, at, metadata.len() as usize);
    let first = at + rest.len();
    assert forall|i: int| 0 <= i < action.len() implies body[first + i] == #[trigger] action[i] by {
        assert(patch[first + i] == action[i]);
    }
    let s = BpsState { image: Seq::empty(), at: first, source: 0, target: 0 };
    law_bps_actions(rom, body, s, data.len() as int, 1, data.len() as int, 0);
    let literal = first + action.len();
    assert forall|i: int| 0 <= i < data.len() implies body[literal + i] == data[i] by {
        assert(patch[literal + i] == data[i]);
    }
    assert(body.subrange(literal, literal + data.len()) =~= data);
    let next = bps_action(rom, body, s, data.len() as int)->Ok_0;
    assert(next.image =~= data);
    assert(action.len() > 0);
    assert(next.at == body.len());
    assert(bps_from(rom, body, next, data.len() as int) == Ok::<Seq<u8>, PatchError>(data));
}

} // verus!
