//! Serial EEPROM backup memory.
//!
//! The chip sits in the top of the ROM address space (`0x0D00_0000`) and
//! talks one bit at a time: software writes a stream of halfwords whose
//! bit 0 forms a request, then reads halfwords back to get the reply.
//! Requests are `10` + address + 64 data bits + a stop bit (write), or
//! `11` + address + stop bit (read); a read reply is 4 dummy bits followed
//! by the 64 data bits, MSB first. Data is addressed in 8-byte blocks.
//!
//! Two sizes exist and cannot be told apart from the ROM: 512 B chips take
//! 6-bit addresses, 8 KiB chips 14-bit. Games always drive the chip with
//! DMA3, so the length of the first request transfer reveals which one
//! the game expects (see [`Eeprom::hint_transfer_len`]).

use vstd::prelude::*;
use vstd::slice::slice_subrange;

verus! {

broadcast use crate::bits::group_mask_bounds;

/// Largest supported chip.
pub const MAX_SIZE: usize = 0x2000;
/// Size of the small chip.
pub const SMALL_SIZE: usize = 0x200;
/// Bits in a reply: 4 dummy bits plus one 8-byte block.
pub const REPLY_BITS: u8 = 4 + 64;

/// Where the request parser is.
#[derive(Debug, Clone, Copy, PartialEq, Eq, Structural)]
pub enum State {
    /// Collecting the 2-bit command.
    Command { bits: u8, count: u8 },
    /// Collecting address bits.
    Address { read: bool, address: u16, count: u8 },
    /// Collecting the 64 data bits of a write.
    WriteData { address: u16, data: u64, count: u8 },
    /// Waiting for the stop bit that ends a write request.
    WriteStop { address: u16, data: u64 },
    /// Waiting for the stop bit that ends a read request.
    ReadStop { address: u16 },
    /// Serving a reply; the bit position lives in `Eeprom::reply_pos`.
    Reply { address: u16 },
}

impl State {
    /// No request under way.
    pub open spec fn idle() -> State {
        State::Command { bits: 0, count: 0 }
    }

    /// The counters are below what completes their field.
    pub open spec fn wf(self) -> bool {
        match self {
            State::Command { bits, count } => count <= 1,
            State::Address { read, address, count } => count < 14,
            State::WriteData { address, data, count } => count < 64,
            _ => true,
        }
    }
}

/// An EEPROM chip of either size.
#[derive(Debug)]
pub struct Eeprom {
    /// Always `MAX_SIZE` long; only the first `size()` bytes are used.
    pub data: Vec<u8>,
    /// `Some(6)` or `Some(14)` once the chip size is known.
    pub address_bits: Option<u8>,
    /// The request parser.
    pub state: State,
    /// Bits of the reply already returned.
    pub reply_pos: u8,
}

/// The mathematical chip.
#[verifier::ext_equal]
pub struct EepromView {
    /// Contents, of the largest chip.
    pub data: Seq<u8>,
    /// Address width once the chip size is known.
    pub address_bits: Option<u8>,
    /// The request parser.
    pub state: State,
    /// Bits of the reply already returned.
    pub reply_pos: u8,
}

impl View for Eeprom {
    type V = EepromView;

    open spec fn view(&self) -> EepromView {
        EepromView {
            data: self.data@,
            address_bits: self.address_bits,
            state: self.state,
            reply_pos: self.reply_pos,
        }
    }
}

/// Byte `i` of the big-endian encoding of `data`.
pub open spec fn big_endian_byte(data: u64, i: int) -> u8 {
    (data >> ((56 - 8 * i) as u64)) as u8
}

impl EepromView {
    /// The contents are of the largest size and the parser is in range.
    pub open spec fn wf(self) -> bool {
        &&& self.data.len() == MAX_SIZE
        &&& self.state.wf()
        &&& self.reply_pos <= REPLY_BITS
        &&& self.address_bits matches Some(bits) ==> bits == 6 || bits == 14
    }

    /// An erased chip of unknown size.
    pub open spec fn erased() -> EepromView {
        EepromView {
            data: Seq::new(MAX_SIZE as nat, |i: int| 0xFFu8),
            address_bits: None,
            state: State::idle(),
            reply_pos: REPLY_BITS,
        }
    }

    /// The chip size in bytes; the large one until proven otherwise.
    pub open spec fn size(self) -> int {
        if self.address_bits == Some(6u8) {
            0x200
        } else {
            0x2000
        }
    }

    /// The chip after a DMA of `units` halfwords to or from it.
    pub open spec fn hinted(self, units: u32) -> EepromView {
        EepromView {
            address_bits: if self.address_bits is Some {
                self.address_bits
            } else if units == 9 || units == 73 {
                Some(6)
            } else if units == 17 || units == 81 {
                Some(14)
            } else {
                None
            },
            ..self
        }
    }

    /// Address bits to expect; the large chip's if unknown.
    pub open spec fn expected_bits(self) -> u8 {
        match self.address_bits {
            Some(bits) => bits,
            None => 14,
        }
    }

    /// Byte offset of an 8-byte block, wrapped to the chip.
    pub open spec fn block(self, address: u16) -> int {
        (address * 8) % self.size()
    }

    /// The chip in another parser state.
    pub open spec fn in_state(self, state: State) -> EepromView {
        EepromView { state, ..self }
    }

    /// The contents with block `address` replaced, most significant byte
    /// first.
    pub open spec fn block_written(self, address: u16, data: u64) -> Seq<u8> {
        let start = self.block(address);
        Seq::new(
            self.data.len(),
            |i: int|
                if start <= i < start + 8 {
                    big_endian_byte(data, i - start)
                } else {
                    self.data[i]
                },
        )
    }

    /// The parser state after a command bit, with `bits` and `count` taken
    /// so far. `0x` is not a command; the search goes on for a leading 1.
    pub open spec fn command_state(bits: u8, count: u8, bit: u16) -> State {
        let taken = (bits << 1) | (bit as u8);
        if count + 1 == 2 {
            if taken == 0b10 {
                State::Address { read: false, address: 0, count: 0 }
            } else if taken == 0b11 {
                State::Address { read: true, address: 0, count: 0 }
            } else {
                State::idle()
            }
        } else {
            State::Command { bits: taken, count: (count + 1) as u8 }
        }
    }

    /// The chip after one request bit (bit 0 of `value`). A write interrupts
    /// any reply in progress.
    pub open spec fn write(self, value: u16) -> EepromView {
        let bit = value & 1;
        match self.state {
            State::Reply { address } => self.in_state(Self::command_state(0, 0, bit)),
            State::Command { bits, count } => self.in_state(
                Self::command_state(bits, count, bit),
            ),
            State::Address { read, address, count } => {
                let taken = (address << 1) | bit;
                self.in_state(
                    if count + 1 < self.expected_bits() {
                        State::Address { read, address: taken, count: (count + 1) as u8 }
                    } else if read {
                        State::ReadStop { address: taken }
                    } else {
                        State::WriteData { address: taken, data: 0, count: 0 }
                    },
                )
            },
            State::WriteData { address, data, count } => {
                let taken = (data << 1) | (bit as u64);
                self.in_state(
                    if count + 1 < 64 {
                        State::WriteData { address, data: taken, count: (count + 1) as u8 }
                    } else {
                        State::WriteStop { address, data: taken }
                    },
                )
            },
            State::WriteStop { address, data } => EepromView {
                data: self.block_written(address, data),
                state: State::idle(),
                ..self
            },
            State::ReadStop { address } => EepromView {
                reply_pos: 0,
                state: State::Reply { address },
                ..self
            },
        }
    }

    /// Whether a reply is under way.
    pub open spec fn replying(self) -> bool {
        self.state is Reply && self.reply_pos < REPLY_BITS
    }

    /// The next reply bit, or `1` ("ready") when there is nothing to reply:
    /// four dummy bits, then the block, most significant bit first.
    pub open spec fn reply(self) -> u16 {
        match self.state {
            State::Reply { address } => if self.reply_pos >= REPLY_BITS {
                1
            } else if self.reply_pos < 4 {
                0
            } else {
                let bit = self.reply_pos - 4;
                let byte = self.data[self.block(address) + bit / 8];
                ((byte >> ((7 - bit % 8) as u8)) & 1) as u16
            },
            _ => 1,
        }
    }

    /// The chip after a read.
    pub open spec fn read(self) -> EepromView {
        if self.replying() {
            EepromView { reply_pos: (self.reply_pos + 1) as u8, ..self }
        } else {
            self
        }
    }

    /// The chip after a save file's `contents` are restored. Their length
    /// also settles an unknown chip size.
    pub open spec fn load(self, contents: Seq<u8>) -> EepromView {
        let sized = EepromView {
            address_bits: if self.address_bits is Some {
                self.address_bits
            } else if contents.len() <= SMALL_SIZE {
                Some(6)
            } else {
                Some(14)
            },
            ..self
        };
        EepromView { data: overlaid(self.data, contents, sized.size()), ..sized }
    }
}

/// `memory` with its first bytes, at most `limit`, replaced by those of
/// `contents`.
pub open spec fn overlaid(memory: Seq<u8>, contents: Seq<u8>, limit: int) -> Seq<u8> {
    Seq::new(
        memory.len(),
        |i: int|
            if i < contents.len() && i < limit {
                contents[i]
            } else {
                memory[i]
            },
    )
}

/// Replaces the first bytes of `memory`, at most `limit`, by those of
/// `contents`.
pub(crate) fn overlay(memory: &mut Vec<u8>, contents: &[u8], limit: usize)
    requires
        limit <= old(memory)@.len(),
    ensures
        final(memory)@ == overlaid(old(memory)@, contents@, limit as int),
{
    let ghost before = memory@;
    let n: usize = if contents.len() < limit {
        contents.len()
    } else {
        limit
    };
    for i in 0..n
        invariant
            n <= limit <= before.len(),
            n <= contents@.len(),
            memory@.len() == before.len(),
            forall|k: int| 0 <= k < i ==> memory@[k] == contents@[k],
            forall|k: int| i <= k < before.len() ==> memory@[k] == before[k],
    {
        memory[i] = contents[i];
    }
    assert(memory@ =~= overlaid(before, contents@, limit as int));
}

impl Clone for Eeprom {
    fn clone(&self) -> (copy: Self)
        ensures
            copy@ == self@,
    {
        let data = self.data.clone();
        assert(data@ =~= self.data@);
        Self {
            data,
            address_bits: self.address_bits,
            state: self.state,
            reply_pos: self.reply_pos,
        }
    }
}

impl Default for Eeprom {
    fn default() -> (eeprom: Self)
        ensures
            eeprom.wf(),
            eeprom@ == EepromView::erased(),
    {
        Self::new()
    }
}

impl Eeprom {
    /// The contents are of the largest size and the parser is in range.
    pub open spec fn wf(&self) -> bool {
        self@.wf()
    }

    /// An erased chip of yet-unknown size.
    #[must_use]
    pub fn new() -> (eeprom: Self)
        ensures
            eeprom.wf(),
            eeprom@ == EepromView::erased(),
    {
        let eeprom = Self {
            data: vec![0xFFu8; MAX_SIZE],
            address_bits: None,
            state: State::Command { bits: 0, count: 0 },
            reply_pos: REPLY_BITS,
        };
        assert(eeprom@.data =~= EepromView::erased().data);
        eeprom
    }

    /// The chip size in bytes; the large one until proven otherwise.
    #[must_use]
    pub fn size(&self) -> (bytes: usize)
        ensures
            bytes == self@.size(),
    {
        match self.address_bits {
            Some(6) => SMALL_SIZE,
            _ => MAX_SIZE,
        }
    }

    /// Learns the chip size from the length (in halfwords) of a DMA to or
    /// from the chip. Read requests are 9 or 17 units, write requests 73
    /// or 81; other lengths (such as the 68-unit reply fetch) say nothing.
    /// Only the first informative transfer counts.
    pub fn hint_transfer_len(&mut self, units: u32)
        requires
            old(self).wf(),
        ensures
            final(self).wf(),
            final(self)@ == old(self)@.hinted(units),
    {
        if self.address_bits.is_some() {
            return;
        }
        self.address_bits = match units {
            9 | 73 => Some(6),
            17 | 81 => Some(14),
            _ => None,
        };
    }

    /// Address bits to expect; assumes the large chip if unknown.
    fn expected_bits(&self) -> (bits: u8)
        requires
            self.wf(),
        ensures
            bits == self@.expected_bits(),
            bits == 6 || bits == 14,
    {
        match self.address_bits {
            Some(bits) => bits,
            None => 14,
        }
    }

    /// Byte offset of an 8-byte block, wrapped to the chip.
    fn block(&self, address: u16) -> (start: usize)
        ensures
            start == self@.block(address),
            start + 8 <= MAX_SIZE,
    {
        (address as usize * 8) % self.size()
    }

    /// The parser state after a command bit.
    fn command_state(bits: u8, count: u8, bit: u16) -> (state: State)
        requires
            count <= 1,
            bit <= 1,
        ensures
            state == EepromView::command_state(bits, count, bit),
            state.wf(),
    {
        let bits: u8 = (bits << 1) | (bit as u8);
        match (count + 1, bits) {
            (2, 0b10) => State::Address { read: false, address: 0, count: 0 },
            (2, 0b11) => State::Address { read: true, address: 0, count: 0 },
            // `0x` is not a command; keep looking for a leading 1.
            (2, _) => State::Command { bits: 0, count: 0 },
            (count, bits) => State::Command { bits, count },
        }
    }

    /// Writes a block, most significant byte first.
    fn write_block(&mut self, address: u16, data: u64)
        requires
            old(self).wf(),
        ensures
            final(self)@ == (EepromView {
                data: old(self)@.block_written(address, data),
                ..old(self)@
            }),
    {
        let start: usize = self.block(address);
        let ghost before = self@;
        for i in 0..8usize
            invariant
                before.data.len() == MAX_SIZE,
                start == before.block(address),
                start + 8 <= MAX_SIZE,
                self@.data.len() == MAX_SIZE,
                self@ == (EepromView { data: self@.data, ..before }),
                forall|k: int|
                    start <= k < start + i ==> self@.data[k] == big_endian_byte(data, k - start),
                forall|k: int|
                    0 <= k < MAX_SIZE && !(start <= k < start + i) ==> self@.data[k]
                        == before.data[k],
        {
            let shift: u64 = 56 - 8 * i as u64;
            self.data[start + i] = (data >> shift) as u8;
        }
        assert(self@.data =~= before.block_written(address, data));
    }

    /// Feeds one request bit (bit 0 of a halfword write).
    pub fn write(&mut self, value: u16)
        requires
            old(self).wf(),
        ensures
            final(self).wf(),
            final(self)@ == old(self)@.write(value),
    {
        let bit: u16 = value & 1;
        match self.state {
            // A write interrupts any reply in progress.
            State::Reply { .. } => {
                self.state = Self::command_state(0, 0, bit);
            },
            State::Command { bits, count } => {
                self.state = Self::command_state(bits, count, bit);
            },
            State::Address { read, address, count } => {
                let address: u16 = (address << 1) | bit;
                let count: u8 = count + 1;
                self.state =
                if count < self.expected_bits() {
                    State::Address { read, address, count }
                } else if read {
                    State::ReadStop { address }
                } else {
                    State::WriteData { address, data: 0, count: 0 }
                };
            },
            State::WriteData { address, data, count } => {
                let data: u64 = (data << 1) | (bit as u64);
                self.state =
                if count + 1 < 64 {
                    State::WriteData { address, data, count: count + 1 }
                } else {
                    State::WriteStop { address, data }
                };
            },
            State::WriteStop { address, data } => {
                self.write_block(address, data);
                self.state = State::Command { bits: 0, count: 0 };
            },
            State::ReadStop { address } => {
                self.reply_pos = 0;
                self.state = State::Reply { address };
            },
        }
    }

    /// Returns the next reply bit, or `1` ("ready") when there is nothing
    /// to reply.
    pub fn read(&mut self) -> (bit: u16)
        requires
            old(self).wf(),
        ensures
            final(self).wf(),
            final(self)@ == old(self)@.read(),
            bit == old(self)@.reply(),
    {
        let address: u16 = match self.state {
            State::Reply { address } => address,
            _ => {
                return 1;
            },
        };
        let pos: u8 = self.reply_pos;
        if pos >= REPLY_BITS {
            return 1;
        }
        self.reply_pos = pos + 1;
        if pos < 4 {
            return 0;
        }
        let bit: u8 = pos - 4;
        let byte: u8 = self.data[self.block(address) + (bit / 8) as usize];
        ((byte >> (7 - bit % 8)) & 1) as u16
    }

    /// The chip contents, for saving.
    #[must_use]
    pub fn data(&self) -> (contents: &[u8])
        requires
            self.wf(),
        ensures
            contents@ == self@.data.take(self@.size()),
    {
        slice_subrange(self.data.as_slice(), 0, self.size())
    }

    /// Restores the contents from a save file, whose length also settles
    /// the chip size.
    pub fn load(&mut self, data: &[u8])
        requires
            old(self).wf(),
        ensures
            final(self).wf(),
            final(self)@ == old(self)@.load(data@),
    {
        if self.address_bits.is_none() {
            self.address_bits = Some(
                if data.len() <= SMALL_SIZE {
                    6
                } else {
                    14
                },
            );
        }
        let size: usize = self.size();
        overlay(&mut self.data, data, size);
    }
}

} // verus!
