//! Save states: the whole machine, frozen and thawed.
//!
//! A [`Snapshot`] is every piece of state the emulator steps: CPU registers,
//! the memories, the I/O block with its timers, DMA and sound unit, the PPU
//! and backup memory, captured at a frame boundary. The cartridge ROM rides
//! along shared rather than copied (see [`Cartridge`](crate::Cartridge)), so
//! a snapshot costs roughly the size of RAM plus the framebuffer, not the
//! size of the game.
//!
//! Restoring is a whole-machine replacement, not a merge: whatever the
//! running system had becomes the snapshot's, down to the pending interrupt
//! flags, so a restored state continues exactly where it was taken rather
//! than approximately.
//!
//! In a state file the machine is laid out field by field (see [`machine`]),
//! as nested tuples of plain values that `postcard` encodes: there a tuple is
//! its elements one behind the other, as a struct is its fields.

use vstd::prelude::*;

use crate::bytes::{get16, half_at};
use crate::error::{GbaError, Result};
use crate::gba::{Gba, GbaView};
use crate::memory::cartridge::CartridgeView;
use crate::memory::Cartridge;
use crate::ppu::Framebuffer;
use crate::state::machine::{
    law_layout_names_one_machine, machine_layout, no_machine, put_together, take_apart,
    MachineLayout, MachineParts,
};

pub mod continuation;
pub mod devices;
pub mod machine;
pub mod memories;
pub mod processor;
pub mod sound;

verus! {

/// First bytes of a state file, so one can be recognised (and, more
/// usefully, so something that is not one can be rejected before it is
/// decoded): `TUIBAST` and a NUL.
pub const MAGIC: [u8; 8] = [0x54, 0x55, 0x49, 0x42, 0x41, 0x53, 0x54, 0x00];

/// Version of the serialized layout. Bumped whenever the state a build
/// writes stops being readable by the same code; a field added to the
/// emulator is enough, since the encoding is positional.
pub const FORMAT_VERSION: u16 = 1;

/// Magic, version and cartridge fingerprint, ahead of the payload.
pub const HEADER_LEN: usize = 18;

/// What `postcard` encodes the layout of a machine to.
pub uninterp spec fn encoded(layout: MachineLayout) -> Seq<u8>;

/// What `postcard` decodes a payload to, on a machine with words of
/// `word_bits` bits, which bound lengths and other word-sized numbers: the
/// layout of a machine, or the wording of an error.
pub uninterp spec fn decoded(
    payload: Seq<u8>,
    word_bits: u32,
) -> core::result::Result<MachineLayout, Seq<char>>;

/// Appends the parts of a machine to a file with `postcard::to_extend`.
/// Writing to a `Vec` never fails, and what was written decodes to the same
/// values.
#[verifier::external_body]
fn encode(file: Vec<u8>, parts: &MachineParts) -> (bytes: Vec<u8>)
    ensures
        bytes@ == file@ + encoded(parts@),
        match decoded(bytes@.skip(file@.len() as int), usize::BITS) {
            Ok(layout) => layout == parts@,
            Err(wording) => false,
        },
{
    postcard::to_extend(parts, file).expect("a machine is always encodable")
}

/// Decodes the parts of a machine with `postcard::from_bytes`, whose error is
/// turned into its wording.
#[verifier::external_body]
fn decode(payload: &[u8]) -> (parts: core::result::Result<MachineParts, String>)
    ensures
        match decoded(payload@, usize::BITS) {
            Ok(layout) => parts matches Ok(found) && found@ == layout,
            Err(wording) => parts matches Err(text) && text@ == wording,
        },
{
    postcard::from_bytes(payload).map_err(|err| err.to_string())
}

/// A fingerprint as bytes, lowest first.
pub open spec fn fingerprint_bytes(fingerprint: u64) -> Seq<u8> {
    seq![
        fingerprint as u8,
        (fingerprint >> 8) as u8,
        (fingerprint >> 16) as u8,
        (fingerprint >> 24) as u8,
        (fingerprint >> 32) as u8,
        (fingerprint >> 40) as u8,
        (fingerprint >> 48) as u8,
        (fingerprint >> 56) as u8,
    ]
}

/// A fingerprint as bytes, lowest first.
fn to_le_bytes(fingerprint: u64) -> (bytes: [u8; 8])
    ensures
        bytes@ == fingerprint_bytes(fingerprint),
{
    let bytes: [u8; 8] = [
        fingerprint as u8,
        (fingerprint >> 8) as u8,
        (fingerprint >> 16) as u8,
        (fingerprint >> 24) as u8,
        (fingerprint >> 32) as u8,
        (fingerprint >> 40) as u8,
        (fingerprint >> 48) as u8,
        (fingerprint >> 56) as u8,
    ];
    assert(bytes@ =~= fingerprint_bytes(fingerprint));
    bytes
}

/// The start of a state file: magic, version and fingerprint.
pub open spec fn file_header(fingerprint: u64) -> Seq<u8> {
    MAGIC@ + (seq![1u8, 0u8] + fingerprint_bytes(fingerprint))
}

/// Whether `bytes` is a state file that holds `gba`.
pub open spec fn holds_machine(bytes: Seq<u8>, gba: Gba) -> bool {
    &&& bytes.len() >= HEADER_LEN
    &&& bytes.take(HEADER_LEN as int) == file_header(gba.bus.cartridge.fingerprint)
    &&& decoded(bytes.skip(HEADER_LEN as int), usize::BITS) matches Ok(layout) && layout
        == machine_layout(gba)
}

/// Whether `read` is what reading the state file `bytes` for `cartridge`
/// gives: each way of refusing it in turn, or the machine that it lays out,
/// with the ROM of `cartridge` behind it.
pub open spec fn read_back(
    bytes: Seq<u8>,
    cartridge: CartridgeView,
    read: Result<Snapshot>,
) -> bool {
    if bytes.len() < HEADER_LEN || bytes.take(8) != MAGIC@ {
        read == Err::<Snapshot, GbaError>(GbaError::StateFormat)
    } else if half_at(bytes, 8) != FORMAT_VERSION {
        read == Err::<Snapshot, GbaError>(
            GbaError::StateVersion { found: half_at(bytes, 8), expected: FORMAT_VERSION },
        )
    } else if bytes.subrange(10, 18) != fingerprint_bytes(cartridge.fingerprint) {
        read == Err::<Snapshot, GbaError>(GbaError::StateCartridge)
    } else {
        match decoded(bytes.skip(HEADER_LEN as int), usize::BITS) {
            Err(wording) => read matches Err(GbaError::StateCorrupt(text)) && text@ == wording,
            Ok(layout) => match read {
                Ok(snapshot) => {
                    &&& snapshot.wf()
                    &&& machine_layout(snapshot.gba) == layout
                    &&& snapshot@.bus.cartridge.rom == cartridge.rom
                },
                Err(err) => {
                    &&& err matches GbaError::StateCorrupt(text) && text@
                        == "a field is out of range"@
                    &&& no_machine(layout)
                },
            },
        }
    }
}

/// A fingerprint is told from any other by its bytes.
proof fn lemma_fingerprint(a: u64, b: u64)
    by (bit_vector)
    requires
        a as u8 == b as u8,
        (a >> 8) as u8 == (b >> 8) as u8,
        (a >> 16) as u8 == (b >> 16) as u8,
        (a >> 24) as u8 == (b >> 24) as u8,
        (a >> 32) as u8 == (b >> 32) as u8,
        (a >> 40) as u8 == (b >> 40) as u8,
        (a >> 48) as u8 == (b >> 48) as u8,
        (a >> 56) as u8 == (b >> 56) as u8,
    ensures
        a == b,
{
}

/// The parts of a state file's header.
proof fn lemma_header_parts(bytes: Seq<u8>, fingerprint: u64)
    requires
        bytes.len() >= HEADER_LEN,
        bytes.take(HEADER_LEN as int) == file_header(fingerprint),
    ensures
        bytes.take(8) == MAGIC@,
        half_at(bytes, 8) == FORMAT_VERSION,
        bytes.subrange(10, 18) == fingerprint_bytes(fingerprint),
{
    let header = file_header(fingerprint);
    assert(bytes.take(8) =~= header.take(8));
    assert(header.take(8) =~= MAGIC@);
    assert(bytes.subrange(10, 18) =~= header.subrange(10, 18));
    assert(header.subrange(10, 18) =~= fingerprint_bytes(fingerprint));
    assert(header[8] == 1u8 && header[9] == 0u8);
    assert(bytes[8] == header[8] && bytes[9] == header[9]);
    crate::bits::constant_facts();
}

/// A state that was written and is read back for a cartridge with the same
/// ROM is the same machine.
pub proof fn law_state_round_trip(
    machine: Gba,
    bytes: Seq<u8>,
    cartridge: CartridgeView,
    read: Result<Snapshot>,
)
    requires
        machine.wf(),
        machine@.bus.cartridge.rom == cartridge.rom,
        machine@.bus.cartridge.fingerprint == cartridge.fingerprint,
        holds_machine(bytes, machine),
        read_back(bytes, cartridge, read),
    ensures
        read matches Ok(snapshot) && snapshot.wf() && snapshot@ == machine@,
{
    lemma_header_parts(bytes, cartridge.fingerprint);
    match read {
        Ok(snapshot) => {
            law_layout_names_one_machine(snapshot.gba, machine);
        },
        Err(_) => {},
    }
}

/// A state of one cartridge is refused for every cartridge with another
/// fingerprint.
pub proof fn law_other_cartridge_refused(
    machine: Gba,
    bytes: Seq<u8>,
    cartridge: CartridgeView,
    read: Result<Snapshot>,
)
    requires
        holds_machine(bytes, machine),
        machine.bus.cartridge.fingerprint != cartridge.fingerprint,
        read_back(bytes, cartridge, read),
    ensures
        read == Err::<Snapshot, GbaError>(GbaError::StateCartridge),
{
    let (a, b) = (machine.bus.cartridge.fingerprint, cartridge.fingerprint);
    lemma_header_parts(bytes, a);
    let (x, y) = (fingerprint_bytes(a), fingerprint_bytes(b));
    if x == y {
        assert(x[0] == y[0]);
        assert(x[1] == y[1]);
        assert(x[2] == y[2]);
        assert(x[3] == y[3]);
        assert(x[4] == y[4]);
        assert(x[5] == y[5]);
        assert(x[6] == y[6]);
        assert(x[7] == y[7]);
        lemma_fingerprint(a, b);
    }
}

/// A frozen machine, taken by [`Gba::snapshot`].
#[derive(Debug)]
pub struct Snapshot {
    /// The machine as it was.
    pub gba: Gba,
}

impl View for Snapshot {
    type V = GbaView;

    open spec fn view(&self) -> GbaView {
        self.gba@
    }
}

impl Clone for Snapshot {
    fn clone(&self) -> (copy: Self)
        ensures
            copy@ == self@,
            self.wf() ==> copy.wf(),
    {
        Self { gba: self.gba.clone() }
    }
}

impl Snapshot {
    /// The machine is well-formed.
    pub open spec fn wf(&self) -> bool {
        self.gba.wf()
    }

    /// The frame that was on screen when the snapshot was taken, for a
    /// frontend that previews its save states.
    #[must_use]
    pub fn framebuffer(&self) -> (frame: &Framebuffer)
        ensures
            frame@ == self@.ppu.framebuffer,
            self.wf() ==> frame.wf(),
    {
        self.gba.framebuffer()
    }

    /// The title of the cartridge the snapshot was taken from. A state
    /// only means anything to the game it came from, so a frontend that
    /// stores several has to be able to tell them apart.
    #[must_use]
    pub fn title(&self) -> (title: &str)
        ensures
            title@ == self@.bus.cartridge.header.title,
    {
        self.gba.bus.cartridge.header().title.as_str()
    }

    /// Serializes the snapshot for writing to a file.
    ///
    /// The cartridge ROM is not part of it: it is the game the state belongs
    /// to, and the player already has it. What goes in instead is its
    /// fingerprint, so [`Snapshot::from_bytes`] can refuse a state that
    /// belongs to another cartridge.
    #[must_use]
    pub fn to_bytes(&self) -> (bytes: Vec<u8>)
        requires
            self.wf(),
        ensures
            bytes@ == file_header(self@.bus.cartridge.fingerprint) + encoded(
                machine_layout(self.gba),
            ),
            holds_machine(bytes@, self.gba),
    {
        let fingerprint: u64 = self.gba.bus.cartridge.fingerprint();
        let mut header: Vec<u8> = Vec::new();
        header.extend_from_slice(&MAGIC);
        header.push(FORMAT_VERSION as u8);
        header.push((FORMAT_VERSION >> 8) as u8);
        header.extend_from_slice(&to_le_bytes(fingerprint));
        proof {
            crate::bits::constant_facts();
        }
        let ghost head = header@;
        assert(head =~= file_header(fingerprint));
        let parts = take_apart(&self.gba);
        let bytes = encode(header, &parts);
        assert(bytes@.take(18) =~= head);
        bytes
    }

    /// Reads back what [`Snapshot::to_bytes`] wrote, putting `cartridge`'s
    /// ROM behind it.
    ///
    /// # Errors
    ///
    /// [`GbaError::StateFormat`] if the bytes are not a state file,
    /// [`GbaError::StateVersion`] if they are one this build does not
    /// read, [`GbaError::StateCartridge`] if they belong to a different
    /// cartridge, and [`GbaError::StateCorrupt`] if the payload does not
    /// decode to a machine.
    pub fn from_bytes(bytes: &[u8], cartridge: &Cartridge) -> (read: Result<Self>)
        requires
            cartridge.wf(),
        ensures
            read_back(bytes@, cartridge@, read),
    {
        if bytes.len() < HEADER_LEN {
            return Err(GbaError::StateFormat);
        }
        for i in 0..8usize
            invariant
                bytes@.len() >= HEADER_LEN,
                forall|k: int| 0 <= k < i ==> bytes@[k] == MAGIC@[k],
        {
            if bytes[i] != MAGIC[i] {
                assert(bytes@.take(8)[i as int] != MAGIC@[i as int]);
                return Err(GbaError::StateFormat);
            }
        }
        assert(bytes@.take(8) =~= MAGIC@);
        let version: u16 = get16(bytes, 8);
        if version != FORMAT_VERSION {
            return Err(GbaError::StateVersion { found: version, expected: FORMAT_VERSION });
        }
        let fingerprint: u64 = cartridge.fingerprint();
        let expected: [u8; 8] = to_le_bytes(fingerprint);
        for i in 0..8usize
            invariant
                bytes@.len() >= HEADER_LEN,
                bytes@.take(8) == MAGIC@,
                half_at(bytes@, 8) == FORMAT_VERSION,
                expected@ == fingerprint_bytes(cartridge@.fingerprint),
                forall|k: int| 0 <= k < i ==> bytes@[10 + k] == expected@[k],
        {
            if bytes[10 + i] != expected[i] {
                assert(bytes@.subrange(10, 18)[i as int] != expected@[i as int]);
                return Err(GbaError::StateCartridge);
            }
        }
        assert(bytes@.subrange(10, 18) =~= expected@);
        let payload = vstd::slice::slice_subrange(bytes, HEADER_LEN, bytes.len());
        assert(payload@ =~= bytes@.skip(18));
        match decode(payload) {
            Err(wording) => Err(GbaError::StateCorrupt(wording)),
            Ok(parts) => match put_together(parts, cartridge) {
                Some(gba) => Ok(Self { gba }),
                None => Err(GbaError::StateCorrupt("a field is out of range".to_owned())),
            },
        }
    }
}

impl Gba {
    /// Freezes the machine.
    ///
    /// Cheap enough to call between frames: the ROM is shared with the
    /// running system, and what is copied is RAM-sized.
    #[must_use]
    pub fn snapshot(&self) -> (snapshot: Snapshot)
        ensures
            snapshot@ == self@,
            self.wf() ==> snapshot.wf(),
    {
        Snapshot { gba: self.clone() }
    }

    /// Thaws a snapshot back into this machine.
    ///
    /// Buffered audio is dropped rather than restored: the samples in
    /// flight belong to the moment the snapshot replaced, and playing
    /// them after the jump is heard as a click. The frontend's own queue
    /// wants the same treatment.
    pub fn restore(&mut self, snapshot: &Snapshot)
        requires
            snapshot.wf(),
        ensures
            final(self).wf(),
            final(self)@ == snapshot@.audio_cleared(),
    {
        *self = snapshot.gba.clone();
        self.clear_audio();
    }
}

} // verus!
