//! How a state file lays out backup memory, the I/O block, the cartridge and
//! the bus.

use std::sync::Arc;

use vstd::prelude::*;

use crate::memory::backup::{Backup, Flash, FlashState, SaveType};
use crate::memory::cartridge::Header;
use crate::memory::eeprom::{Eeprom, State, MAX_SIZE, REPLY_BITS};
use crate::memory::io::IoRegisters;
use crate::memory::video::VideoMemory;
use crate::memory::{
    Bus, Cartridge, Memory, BIOS_SIZE, EWRAM_SIZE, IO_SIZE, IWRAM_SIZE, OAM_SIZE, PALETTE_SIZE,
    ROM_MAX_SIZE, VRAM_SIZE,
};
use crate::state::devices::{
    dma_layout, gpio_layout, lemma_dma, lemma_gpio, lemma_timers, lemma_wait, put_dma, put_gpio,
    put_timers, put_wait, take_dma, take_gpio, take_timers, take_wait, timers_layout, wait_layout,
    DmaParts, GpioLayout, GpioParts, TimersParts, WaitLayout, WaitParts,
};
use crate::state::sound::{apu_layout, lemma_apu, put_apu, take_apu, ApuLayout, ApuParts};

verus! {

/// Copies a block of bytes.
fn copied(block: &Vec<u8>) -> (copy: Vec<u8>)
    ensures
        copy@ == block@,
{
    let copy = block.clone();
    assert(copy@ =~= block@);
    copy
}

/// The number of a flash command state, counted in the order of the variants.
pub open spec fn flash_state_number(state: FlashState) -> u32 {
    match state {
        FlashState::Idle => 0,
        FlashState::Unlock1 => 1,
        FlashState::Command => 2,
        FlashState::EraseUnlock1 => 3,
        FlashState::EraseUnlock2 => 4,
        FlashState::EraseCommand => 5,
        FlashState::Program => 6,
        FlashState::BankSelect => 7,
    }
}

fn take_flash_state(state: FlashState) -> (number: u32)
    ensures
        number == flash_state_number(state),
{
    match state {
        FlashState::Idle => 0,
        FlashState::Unlock1 => 1,
        FlashState::Command => 2,
        FlashState::EraseUnlock1 => 3,
        FlashState::EraseUnlock2 => 4,
        FlashState::EraseCommand => 5,
        FlashState::Program => 6,
        FlashState::BankSelect => 7,
    }
}

fn put_flash_state(number: u32) -> (put: Option<FlashState>)
    ensures
        match put {
            Some(state) => flash_state_number(state) == number,
            None => number > 7,
        },
{
    match number {
        0 => Some(FlashState::Idle),
        1 => Some(FlashState::Unlock1),
        2 => Some(FlashState::Command),
        3 => Some(FlashState::EraseUnlock1),
        4 => Some(FlashState::EraseUnlock2),
        5 => Some(FlashState::EraseCommand),
        6 => Some(FlashState::Program),
        7 => Some(FlashState::BankSelect),
        _ => None,
    }
}

/// A flash chip as plain values, without its contents, in the order of its
/// fields.
pub type FlashParts = (usize, u32, bool, u8, u8);

/// What a state file holds of a flash chip behind its contents.
pub open spec fn flash_layout(flash: Flash) -> FlashParts {
    (
        flash.bank,
        flash_state_number(flash.state),
        flash.id_mode,
        flash.manufacturer,
        flash.device,
    )
}

/// An EEPROM transfer state as plain values: the number of the variant, then
/// each field that a variant can have (bits, read, address, data, count), where
/// it has it.
pub type TransferParts = (
    u32,
    Option<u8>,
    Option<bool>,
    Option<u16>,
    Option<u64>,
    Option<u8>,
);

/// What a state file holds of an EEPROM transfer state.
pub open spec fn transfer_layout(state: State) -> TransferParts {
    match state {
        State::Command { bits, count } => (0, Some(bits), None, None, None, Some(count)),
        State::Address { read, address, count } => (
            1,
            None,
            Some(read),
            Some(address),
            None,
            Some(count),
        ),
        State::WriteData { address, data, count } => (
            2,
            None,
            None,
            Some(address),
            Some(data),
            Some(count),
        ),
        State::WriteStop { address, data } => (3, None, None, Some(address), Some(data), None),
        State::ReadStop { address } => (4, None, None, Some(address), None, None),
        State::Reply { address } => (5, None, None, Some(address), None, None),
    }
}

fn take_transfer(state: State) -> (parts: TransferParts)
    ensures
        parts == transfer_layout(state),
{
    match state {
        State::Command { bits, count } => (0, Some(bits), None, None, None, Some(count)),
        State::Address { read, address, count } => (
            1,
            None,
            Some(read),
            Some(address),
            None,
            Some(count),
        ),
        State::WriteData { address, data, count } => (
            2,
            None,
            None,
            Some(address),
            Some(data),
            Some(count),
        ),
        State::WriteStop { address, data } => (3, None, None, Some(address), Some(data), None),
        State::ReadStop { address } => (4, None, None, Some(address), None, None),
        State::Reply { address } => (5, None, None, Some(address), None, None),
    }
}

fn put_transfer(parts: TransferParts) -> (put: Option<State>)
    ensures
        match put {
            Some(state) => state.wf() && transfer_layout(state) == parts,
            None => forall|state: State| state.wf() ==> #[trigger] transfer_layout(state) != parts,
        },
{
    match parts {
        (0, Some(bits), None, None, None, Some(count)) => {
            if count <= 1 {
                Some(State::Command { bits, count })
            } else {
                None
            }
        },
        (1, None, Some(read), Some(address), None, Some(count)) => {
            if count < 14 {
                Some(State::Address { read, address, count })
            } else {
                None
            }
        },
        (2, None, None, Some(address), Some(data), Some(count)) => {
            if count < 64 {
                Some(State::WriteData { address, data, count })
            } else {
                None
            }
        },
        (3, None, None, Some(address), Some(data), None) => {
            Some(State::WriteStop { address, data })
        },
        (4, None, None, Some(address), None, None) => Some(State::ReadStop { address }),
        (5, None, None, Some(address), None, None) => Some(State::Reply { address }),
        _ => None,
    }
}

/// An EEPROM chip as plain values, without its contents, in the order of its
/// fields.
pub type EepromParts = (Option<u8>, TransferParts, u8);

/// What a state file holds of an EEPROM chip behind its contents.
pub open spec fn eeprom_layout(eeprom: Eeprom) -> EepromParts {
    (eeprom.address_bits, transfer_layout(eeprom.state), eeprom.reply_pos)
}

/// Backup memory as plain values.
pub type BackupParts = (u32, Vec<u8>, Option<FlashParts>, Option<EepromParts>);

/// Backup memory in a state file: the number of the variant, the contents,
/// which are the first field of each, and then the other fields of a flash
/// chip and of an EEPROM chip, where it is that.
pub type BackupLayout = (u32, Seq<u8>, Option<FlashParts>, Option<EepromParts>);

/// What a state file holds of backup memory.
pub open spec fn backup_layout(backup: Backup) -> BackupLayout {
    match backup {
        Backup::Sram(data) => (0, data@, None, None),
        Backup::Flash(flash) => (1, flash.data@, Some(flash_layout(flash)), None),
        Backup::Eeprom(eeprom) => (2, eeprom.data@, None, Some(eeprom_layout(eeprom))),
    }
}

/// Takes backup memory apart.
fn take_backup(backup: &Backup) -> (parts: BackupParts)
    ensures
        parts@ == backup_layout(*backup),
{
    match backup {
        Backup::Sram(data) => (0, copied(data), None, None),
        Backup::Flash(flash) => {
            let fields: FlashParts = (
                flash.bank,
                take_flash_state(flash.state),
                flash.id_mode,
                flash.manufacturer,
                flash.device,
            );
            (1, copied(&flash.data), Some(fields), None)
        },
        Backup::Eeprom(eeprom) => {
            let fields: EepromParts = (
                eeprom.address_bits,
                take_transfer(eeprom.state),
                eeprom.reply_pos,
            );
            (2, copied(&eeprom.data), None, Some(fields))
        },
    }
}

/// Puts a flash chip together around its contents, if its fields are in
/// range.
fn put_flash(data: Vec<u8>, parts: FlashParts) -> (put: Option<Flash>)
    ensures
        match put {
            Some(flash) => flash.wf() && flash.data@ == data@ && flash_layout(flash) == parts,
            None => forall|flash: Flash|
                flash.wf() && flash.data@ == data@ ==> #[trigger] flash_layout(flash) != parts,
        },
{
    let (bank, state, id_mode, manufacturer, device) = parts;
    let len: usize = data.len();
    if len == 0 || len % 0x1000 != 0 || len > isize::MAX as usize || bank > 1 {
        return None;
    }
    match put_flash_state(state) {
        Some(state) => Some(Flash { data, bank, state, id_mode, manufacturer, device }),
        None => None,
    }
}

/// Puts an EEPROM chip together around its contents, if its fields are in
/// range.
fn put_eeprom(data: Vec<u8>, parts: EepromParts) -> (put: Option<Eeprom>)
    ensures
        match put {
            Some(eeprom) => eeprom.wf() && eeprom.data@ == data@ && eeprom_layout(eeprom) == parts,
            None => forall|eeprom: Eeprom|
                eeprom.wf() && eeprom.data@ == data@ ==> #[trigger] eeprom_layout(eeprom) != parts,
        },
{
    let (address_bits, state, reply_pos) = parts;
    let known = match address_bits {
        Some(bits) => bits == 6 || bits == 14,
        None => true,
    };
    if data.len() != MAX_SIZE || reply_pos > REPLY_BITS || !known {
        return None;
    }
    match put_transfer(state) {
        Some(state) => Some(Eeprom { data, address_bits, state, reply_pos }),
        None => None,
    }
}

/// Puts backup memory together, if there is one with these parts.
fn put_backup(parts: BackupParts) -> (put: Option<Backup>)
    ensures
        match put {
            Some(backup) => backup.wf() && backup_layout(backup) == parts@,
            None => forall|backup: Backup|
                backup.wf() ==> #[trigger] backup_layout(backup) != parts@,
        },
{
    let (kind, data, flash, eeprom) = parts;
    match (kind, flash, eeprom) {
        (0, None, None) => {
            if data.len() > 0 {
                Some(Backup::Sram(data))
            } else {
                None
            }
        },
        (1, Some(fields), None) => match put_flash(data, fields) {
            Some(flash) => Some(Backup::Flash(flash)),
            None => None,
        },
        (2, None, Some(fields)) => match put_eeprom(data, fields) {
            Some(eeprom) => Some(Backup::Eeprom(eeprom)),
            None => None,
        },
        _ => None,
    }
}

/// The layout tells backup memory from any other.
proof fn lemma_backup(a: Backup, b: Backup)
    requires
        backup_layout(a) == backup_layout(b),
    ensures
        a@ == b@,
{
    match (a, b) {
        (Backup::Flash(f), Backup::Flash(g)) => {
            assert(f.state == g.state);
        },
        (Backup::Eeprom(e), Backup::Eeprom(g)) => {
            assert(e.state == g.state);
        },
        _ => {},
    }
}

/// The I/O block as plain values.
pub type IoParts = (Vec<u8>, u16, bool, TimersParts, DmaParts, ApuParts);

/// The I/O block in a state file: its fields in order.
pub type IoLayout = (Seq<u8>, u16, bool, TimersParts, DmaParts, ApuLayout);

/// What a state file holds of the I/O block.
pub open spec fn io_layout(io: IoRegisters) -> IoLayout {
    (
        io.raw@,
        io.keyinput,
        io.halt_requested,
        timers_layout(io.timers),
        dma_layout(io.dma),
        apu_layout(io.apu),
    )
}

/// Takes the I/O block apart.
fn take_io(io: &IoRegisters) -> (parts: IoParts)
    ensures
        parts@ == io_layout(*io),
{
    (
        copied(&io.raw),
        io.keyinput,
        io.halt_requested,
        take_timers(&io.timers),
        take_dma(&io.dma),
        take_apu(&io.apu),
    )
}

/// Puts an I/O block together, if there is one with these parts.
fn put_io(parts: IoParts) -> (put: Option<IoRegisters>)
    ensures
        match put {
            Some(io) => io.wf() && io_layout(io) == parts@,
            None => forall|io: IoRegisters| io.wf() ==> #[trigger] io_layout(io) != parts@,
        },
{
    let (raw, keyinput, halt_requested, timers, dma, apu) = parts;
    if raw.len() != IO_SIZE {
        return None;
    }
    let dma = put_dma(dma);
    match (put_timers(timers), put_apu(apu)) {
        (Some(timers), Some(apu)) => Some(
            IoRegisters { raw, keyinput, halt_requested, timers, dma, apu },
        ),
        _ => None,
    }
}

/// The layout tells an I/O block from any other.
proof fn lemma_io(a: IoRegisters, b: IoRegisters)
    requires
        io_layout(a) == io_layout(b),
    ensures
        a@ == b@,
{
    lemma_timers(a.timers, b.timers);
    lemma_dma(a.dma, b.dma);
    lemma_apu(a.apu, b.apu);
}

/// The video memories as plain values.
pub type VideoParts = (Vec<u8>, Vec<u8>, Vec<u8>);

/// The video memories in a state file: palette, VRAM and OAM.
pub type VideoLayout = (Seq<u8>, Seq<u8>, Seq<u8>);

/// What a state file holds of the video memories.
pub open spec fn video_layout(video: VideoMemory) -> VideoLayout {
    (video.palette@, video.vram@, video.oam@)
}

/// Puts the video memories together, if they have their sizes.
fn put_video(parts: VideoParts) -> (put: Option<VideoMemory>)
    ensures
        match put {
            Some(video) => video.wf() && video_layout(video) == parts@,
            None => forall|video: VideoMemory|
                video.wf() ==> #[trigger] video_layout(video) != parts@,
        },
{
    let (palette, vram, oam) = parts;
    if palette.len() == PALETTE_SIZE && vram.len() == VRAM_SIZE && oam.len() == OAM_SIZE {
        Some(VideoMemory { palette, vram, oam })
    } else {
        None
    }
}

/// The number of a save type, counted in the order of the variants.
pub open spec fn save_type_number(save_type: SaveType) -> u32 {
    match save_type {
        SaveType::Unknown => 0,
        SaveType::Sram => 1,
        SaveType::Flash64K => 2,
        SaveType::Flash128K => 3,
        SaveType::Eeprom => 4,
    }
}

fn take_save_type(save_type: SaveType) -> (number: u32)
    ensures
        number == save_type_number(save_type),
{
    match save_type {
        SaveType::Unknown => 0,
        SaveType::Sram => 1,
        SaveType::Flash64K => 2,
        SaveType::Flash128K => 3,
        SaveType::Eeprom => 4,
    }
}

fn put_save_type(number: u32) -> (put: Option<SaveType>)
    ensures
        match put {
            Some(save_type) => save_type_number(save_type) == number,
            None => number > 4,
        },
{
    match number {
        0 => Some(SaveType::Unknown),
        1 => Some(SaveType::Sram),
        2 => Some(SaveType::Flash64K),
        3 => Some(SaveType::Flash128K),
        4 => Some(SaveType::Eeprom),
        _ => None,
    }
}

/// A cartridge header as plain values.
pub type HeaderParts = (String, String, String, u8, u8, bool);

/// A cartridge header in a state file: its fields in order.
pub type HeaderLayout = (Seq<char>, Seq<char>, Seq<char>, u8, u8, bool);

/// What a state file holds of a cartridge header.
pub open spec fn header_layout(header: Header) -> HeaderLayout {
    (
        header.title@,
        header.game_code@,
        header.maker_code@,
        header.version,
        header.checksum,
        header.valid,
    )
}

/// A cartridge as plain values.
pub type CartridgeParts = (u64, HeaderParts, u32);

/// A cartridge in a state file: fingerprint, header and save type, in the
/// order of its fields but without the ROM.
pub type CartridgeLayout = (u64, HeaderLayout, u32);

/// What a state file holds of a cartridge.
pub open spec fn cartridge_layout(cartridge: Cartridge) -> CartridgeLayout {
    (
        cartridge.fingerprint,
        header_layout(cartridge.header),
        save_type_number(cartridge.save_type),
    )
}

/// Takes a cartridge apart.
fn take_cartridge(cartridge: &Cartridge) -> (parts: CartridgeParts)
    ensures
        parts@ == cartridge_layout(*cartridge),
{
    let header = &cartridge.header;
    let fields: HeaderParts = (
        header.title.clone(),
        header.game_code.clone(),
        header.maker_code.clone(),
        header.version,
        header.checksum,
        header.valid,
    );
    (cartridge.fingerprint, fields, take_save_type(cartridge.save_type))
}

/// Puts a cartridge together around its ROM, if its save type is one.
fn put_cartridge(parts: CartridgeParts, rom: Arc<Vec<u8>>) -> (put: Option<Cartridge>)
    ensures
        match put {
            Some(cartridge) => cartridge.rom == rom && cartridge_layout(cartridge) == parts@,
            None => forall|cartridge: Cartridge| #[trigger] cartridge_layout(cartridge) != parts@,
        },
{
    let (fingerprint, fields, save_type) = parts;
    let (title, game_code, maker_code, version, checksum, valid) = fields;
    let header = Header { title, game_code, maker_code, version, checksum, valid };
    match put_save_type(save_type) {
        Some(save_type) => Some(Cartridge { fingerprint, rom, header, save_type }),
        None => None,
    }
}

/// The bus as plain values.
pub type BusParts = (
    (Vec<u8>, Vec<u8>, Vec<u8>),
    BackupParts,
    IoParts,
    VideoParts,
    CartridgeParts,
    GpioParts,
    WaitParts,
    (u32, u32, u32, u32),
);

/// The bus in a state file: its fields in order.
pub type BusLayout = (
    (Seq<u8>, Seq<u8>, Seq<u8>),
    BackupLayout,
    IoLayout,
    VideoLayout,
    CartridgeLayout,
    GpioLayout,
    WaitLayout,
    (u32, u32, u32, u32),
);

/// What a state file holds of the bus.
pub open spec fn bus_layout(bus: Bus) -> BusLayout {
    (
        (bus.bios@, bus.ewram@, bus.iwram@),
        backup_layout(bus.backup),
        io_layout(bus.io),
        video_layout(bus.video),
        cartridge_layout(bus.cartridge),
        gpio_layout(bus.gpio),
        wait_layout(bus.wait),
        (bus.access_cycles, bus.next_sequential, bus.rom_next, bus.prefetch_cycles),
    )
}

/// Takes the bus apart.
pub(crate) fn take_bus(bus: &Bus) -> (parts: BusParts)
    ensures
        parts@ == bus_layout(*bus),
{
    (
        (copied(&bus.bios), copied(&bus.ewram), copied(&bus.iwram)),
        take_backup(&bus.backup),
        take_io(&bus.io),
        (copied(&bus.video.palette), copied(&bus.video.vram), copied(&bus.video.oam)),
        take_cartridge(&bus.cartridge),
        take_gpio(&bus.gpio),
        take_wait(&bus.wait),
        (bus.access_cycles, bus.next_sequential, bus.rom_next, bus.prefetch_cycles),
    )
}

/// Puts a bus together around a ROM, if there is one with these parts.
pub(crate) fn put_bus(parts: BusParts, rom: Arc<Vec<u8>>) -> (put: Option<Bus>)
    requires
        rom@.len() <= ROM_MAX_SIZE,
    ensures
        match put {
            Some(bus) => bus.wf() && bus_layout(bus) == parts@ && bus.cartridge.rom == rom,
            None => forall|bus: Bus| bus.wf() ==> #[trigger] bus_layout(bus) != parts@,
        },
{
    let (work, backup, io, video, cartridge, gpio, wait, timing) = parts;
    let (bios, ewram, iwram) = work;
    let (access_cycles, next_sequential, rom_next, prefetch_cycles) = timing;
    if bios.len() != BIOS_SIZE || ewram.len() != EWRAM_SIZE || iwram.len() != IWRAM_SIZE {
        return None;
    }
    let cartridge = match put_cartridge(cartridge, rom) {
        Some(cartridge) => cartridge,
        None => {
            return None;
        },
    };
    let (gpio, wait) = match (put_gpio(gpio), put_wait(wait)) {
        (Some(gpio), Some(wait)) => (gpio, wait),
        _ => {
            return None;
        },
    };
    match (put_backup(backup), put_io(io), put_video(video)) {
        (Some(backup), Some(io), Some(video)) => Some(
            Bus {
                bios,
                ewram,
                iwram,
                backup,
                io,
                video,
                cartridge,
                gpio,
                wait,
                access_cycles,
                next_sequential,
                rom_next,
                prefetch_cycles,
            },
        ),
        _ => None,
    }
}

/// The layout tells a bus from any other with the same ROM.
pub(crate) proof fn lemma_bus(a: Bus, b: Bus)
    requires
        bus_layout(a) == bus_layout(b),
        a@.cartridge.rom == b@.cartridge.rom,
    ensures
        a@ == b@,
{
    lemma_backup(a.backup, b.backup);
    lemma_io(a.io, b.io);
    lemma_gpio(a.gpio, b.gpio);
    lemma_wait(a.wait, b.wait);
    assert(a.cartridge.save_type == b.cartridge.save_type);
}

} // verus!
