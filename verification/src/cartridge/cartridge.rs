//! What every cartridge offers, and the state that its address mapping
//! goes by.

use vstd::prelude::*;
use crate::error::Error;
use vstd::slice::slice_subrange;
use crate::utils::{as_u16, pack};
use crate::cartridge::metadata::{
    cartridge_type_for,
    cartridge_type_name,
    controller_of,
    destination_for,
    destination_name,
    license_for,
    license_name,
    lossy_text,
    ram_size_for,
    ram_size_of,
    rom_banks_for,
    rom_banks_of,
    utf8_lossy,
    CartridgeType,
    CARTRIDGE_TYPE_LOCATION,
    RAM_SIZE_LOCATION,
    ROM_SIZE_LOCATION,
};
use crate::cartridge::rom::RomOnly;
use crate::cartridge::mbc1::Mbc1Cartridge;
use crate::cartridge::mbc2::Mbc2Cartridge;
use crate::cartridge::mbc3::Mbc3Cartridge;
use crate::cartridge::mbc5::Mbc5Cartridge;

verus! {

/// The bank controller of a cartridge.
#[derive(Clone, Copy, Debug, PartialEq, Eq, Structural)]
pub enum Controller {
    RomOnly,
    Mbc1,
    Mbc2,
    Mbc3,
    Mbc5,
}

/// What a write to the upper bank window of an MBC1 selects.
#[derive(Clone, Copy, Debug, PartialEq, Eq, Structural)]
pub enum BankMode {
    ROM,
    RAM,
}

/// A cartridge as its address mapping sees it: the ROM image, the
/// cartridge RAM and the bank-selection state.
#[verifier::ext_equal]
pub struct CartridgeModel {
    pub controller: Controller,
    pub rom: Seq<u8>,
    pub ram: Seq<u8>,
    pub rom_bank: u16,
    pub ram_bank: u8,
    pub ram_enabled: bool,
    pub bank_mode: BankMode,
}

/// The bytes of cartridge RAM behind a controller, for an image with the
/// given RAM-size code: none without a controller, 512 cells built into an
/// MBC2, else what the code stands for.
pub open spec fn ram_len(controller: Controller, code: u8) -> nat {
    match controller {
        Controller::RomOnly => 0,
        Controller::Mbc2 => 512,
        _ => ram_size_of(code) as nat,
    }
}

impl CartridgeModel {
    /// A cartridge as it is after loading: bank 1 in the switched window,
    /// RAM zeroed and disabled.
    pub open spec fn fresh(controller: Controller, rom: Seq<u8>) -> CartridgeModel {
        CartridgeModel {
            controller,
            rom,
            ram: Seq::new(ram_len(controller, rom[0x0149]), |i: int| 0u8),
            rom_bank: 1,
            ram_bank: 0,
            ram_enabled: false,
            bank_mode: BankMode::ROM,
        }
    }

    /// The image holds a whole header, and the selected banks are in the
    /// range of the controller.
    pub open spec fn valid(self) -> bool {
        &&& self.rom.len() >= 0x0150
        &&& self.ram.len() <= 131072
        &&& match self.controller {
            Controller::RomOnly => self.rom_bank == 1 && self.ram_bank == 0 && !self.ram_enabled,
            Controller::Mbc1 => self.rom_bank < 128 && self.rom_bank % 32 != 0 && self.ram_bank
                < 4,
            Controller::Mbc2 => 1 <= self.rom_bank < 16 && self.ram_bank == 0,
            Controller::Mbc3 => 1 <= self.rom_bank < 128 && self.ram_bank < 4,
            Controller::Mbc5 => self.rom_bank < 512 && self.ram_bank < 16,
        }
    }

    /// Where in the image a ROM address lands: the lower window is bank 0,
    /// the upper window the selected bank.
    pub open spec fn rom_offset(self, address: u16) -> int {
        if address < 0x4000 {
            address as int
        } else {
            self.rom_bank * 0x4000 + (address - 0x4000)
        }
    }

    /// Where in the cartridge RAM an address of the RAM window lands. The
    /// 512 cells of an MBC2 repeat through the window.
    pub open spec fn ram_offset(self, address: u16) -> int {
        if self.controller == Controller::Mbc2 {
            (address - 0xA000) % 512
        } else {
            self.ram_bank * 0x2000 + (address - 0xA000)
        }
    }

    /// Whether the address is a cell of cartridge RAM that can be reached
    /// now: in the RAM window, with RAM enabled, inside the RAM there is.
    pub open spec fn ram_reachable(self, address: u16) -> bool {
        &&& 0xA000 <= address < 0xC000
        &&& self.ram_enabled
        &&& self.ram_offset(address) < self.ram.len()
    }

    /// The byte at an address, or `InvalidAddress` where the address lies
    /// outside the ROM and RAM that the cartridge has.
    pub open spec fn read(self, address: u16) -> Result<u8, Error> {
        if address < 0x8000 && self.rom_offset(address) < self.rom.len() {
            Ok(self.rom[self.rom_offset(address)])
        } else if self.ram_reachable(address) {
            Ok(self.ram[self.ram_offset(address)])
        } else {
            Err(Error::InvalidAddress(address))
        }
    }

    /// The cartridge after a byte was stored in its RAM.
    pub open spec fn with_ram_cell(self, address: u16, data: u8) -> CartridgeModel {
        CartridgeModel { ram: self.ram.update(self.ram_offset(address), data), ..self }
    }

    /// A write to the RAM window: stored where the cell can be reached,
    /// `InvalidAddress` where it cannot.
    pub open spec fn write_ram(self, address: u16, data: u8) -> (CartridgeModel, Result<(), Error>) {
        if self.ram_reachable(address) {
            (self.with_ram_cell(address, data), Ok(()))
        } else {
            (self, Err(Error::InvalidAddress(address)))
        }
    }

    /// The cartridge with another ROM bank in the switched window.
    pub open spec fn with_rom_bank(self, bank: int) -> CartridgeModel {
        CartridgeModel { rom_bank: bank as u16, ..self }
    }

    /// A write to an MBC1.
    ///
    /// - 0x0000 to 0x1FFF: 0x0A enables the cartridge RAM, any other value
    ///   disables it.
    /// - 0x2000 to 0x3FFF: the low five bits of the value become the low
    ///   five bits of the ROM bank, 1 where they are all zero.
    /// - 0x4000 to 0x5FFF: the top two bits of the value become the upper
    ///   bits of the ROM bank in ROM mode, the RAM bank in RAM mode.
    /// - 0x6000 to 0x7FFF: 0 selects ROM mode, 1 RAM mode, and any other
    ///   value is `InvalidBankingMode`.
    /// - 0xA000 to 0xBFFF: a store into cartridge RAM.
    pub open spec fn write_mbc1(self, address: u16, data: u8) -> (CartridgeModel, Result<(), Error>) {
        if address < 0x2000 {
            (CartridgeModel { ram_enabled: data == 0x0A, ..self }, Ok(()))
        } else if address < 0x4000 {
            let low = if data % 32 == 0 { 1int } else { data as int % 32 };
            (self.with_rom_bank(self.rom_bank / 32 * 32 + low), Ok(()))
        } else if address < 0x6000 {
            if self.bank_mode == BankMode::ROM {
                (self.with_rom_bank(data / 64 * 32 + self.rom_bank % 32), Ok(()))
            } else {
                (CartridgeModel { ram_bank: data / 64, ..self }, Ok(()))
            }
        } else if address < 0x8000 {
            if data == 0 {
                (CartridgeModel { bank_mode: BankMode::ROM, ..self }, Ok(()))
            } else if data == 1 {
                (CartridgeModel { bank_mode: BankMode::RAM, ..self }, Ok(()))
            } else {
                (self, Err(Error::InvalidBankingMode(data)))
            }
        } else {
            self.write_ram(address, data)
        }
    }

    /// A write to an MBC2.
    ///
    /// - 0x0000 to 0x3FFF with address bit 8 clear: a low nibble of 0xA
    ///   enables the built-in RAM, any other disables it.
    /// - 0x0000 to 0x3FFF with address bit 8 set: the low nibble of the
    ///   value becomes the ROM bank, 1 where it is zero.
    /// - 0x4000 to 0x7FFF: `IllegalWrite`, the controller has no register
    ///   there.
    /// - 0xA000 to 0xBFFF: a store of the low nibble into the built-in RAM.
    pub open spec fn write_mbc2(self, address: u16, data: u8) -> (CartridgeModel, Result<(), Error>) {
        if address < 0x4000 {
            if (address / 256) % 2 == 0 {
                (CartridgeModel { ram_enabled: data % 16 == 0x0A, ..self }, Ok(()))
            } else {
                (self.with_rom_bank(if data % 16 == 0 { 1int } else { data as int % 16 }), Ok(()))
            }
        } else if address < 0x8000 {
            (self, Err(Error::IllegalWrite(address)))
        } else {
            self.write_ram(address, data % 16)
        }
    }

    /// A write to an MBC3. The clock of this controller is not part of the
    /// cartridge state, so what would select or latch it is refused.
    ///
    /// - 0x0000 to 0x1FFF: a low nibble of 0xA enables the cartridge RAM,
    ///   any other disables it.
    /// - 0x2000 to 0x3FFF: the low seven bits of the value become the ROM
    ///   bank, 1 where they are all zero.
    /// - 0x4000 to 0x5FFF: a value below 4 becomes the RAM bank; any other
    ///   is `IllegalWrite`.
    /// - 0x6000 to 0x7FFF: `IllegalWrite`.
    /// - 0xA000 to 0xBFFF: a store into cartridge RAM.
    pub open spec fn write_mbc3(self, address: u16, data: u8) -> (CartridgeModel, Result<(), Error>) {
        if address < 0x2000 {
            (CartridgeModel { ram_enabled: data % 16 == 0x0A, ..self }, Ok(()))
        } else if address < 0x4000 {
            (self.with_rom_bank(if data % 128 == 0 { 1int } else { data as int % 128 }), Ok(()))
        } else if address < 0x6000 {
            if data < 4 {
                (CartridgeModel { ram_bank: data, ..self }, Ok(()))
            } else {
                (self, Err(Error::IllegalWrite(address)))
            }
        } else if address < 0x8000 {
            (self, Err(Error::IllegalWrite(address)))
        } else {
            self.write_ram(address, data)
        }
    }

    /// A write to an MBC5.
    ///
    /// - 0x0000 to 0x1FFF: 0x0A enables the cartridge RAM, any other value
    ///   disables it.
    /// - 0x2000 to 0x2FFF: the value becomes the low eight bits of the ROM
    ///   bank; bank 0 can be selected.
    /// - 0x3000 to 0x3FFF: the lowest bit of the value becomes bit 8 of the
    ///   ROM bank.
    /// - 0x4000 to 0x5FFF: the low nibble of the value becomes the RAM bank.
    /// - 0x6000 to 0x7FFF: `IllegalWrite`, the controller has no register
    ///   there.
    /// - 0xA000 to 0xBFFF: a store into cartridge RAM.
    pub open spec fn write_mbc5(self, address: u16, data: u8) -> (CartridgeModel, Result<(), Error>) {
        if address < 0x2000 {
            (CartridgeModel { ram_enabled: data == 0x0A, ..self }, Ok(()))
        } else if address < 0x3000 {
            (self.with_rom_bank(self.rom_bank / 256 * 256 + data), Ok(()))
        } else if address < 0x4000 {
            (self.with_rom_bank(data % 2 * 256 + self.rom_bank % 256), Ok(()))
        } else if address < 0x6000 {
            (CartridgeModel { ram_bank: data % 16, ..self }, Ok(()))
        } else if address < 0x8000 {
            (self, Err(Error::IllegalWrite(address)))
        } else {
            self.write_ram(address, data)
        }
    }

    /// The cartridge after a write, and whether the write was accepted. A
    /// write never changes the ROM image. A cartridge without a controller
    /// refuses every write as `IllegalWrite`.
    pub open spec fn write(self, address: u16, data: u8) -> (CartridgeModel, Result<(), Error>) {
        match self.controller {
            Controller::RomOnly => (self, Err(Error::IllegalWrite(address))),
            Controller::Mbc1 => self.write_mbc1(address, data),
            Controller::Mbc2 => self.write_mbc2(address, data),
            Controller::Mbc3 => self.write_mbc3(address, data),
            Controller::Mbc5 => self.write_mbc5(address, data),
        }
    }
}

/// A write never changes the ROM image or the controller, and it leaves a
/// valid cartridge valid.
pub proof fn lemma_write_keeps_image(cartridge: CartridgeModel, address: u16, data: u8)
    requires
        cartridge.valid(),
    ensures
        cartridge.write(address, data).0.valid(),
        cartridge.write(address, data).0.rom == cartridge.rom,
        cartridge.write(address, data).0.controller == cartridge.controller,
        cartridge.write(address, data).1 is Err ==> cartridge.write(address, data).0 == cartridge,
{
}

/// A cartridge without a controller refuses every write as `IllegalWrite`
/// and is not changed by it.
pub proof fn lemma_rom_only_refuses(cartridge: CartridgeModel, address: u16, data: u8)
    requires
        cartridge.controller == Controller::RomOnly,
    ensures
        cartridge.write(address, data) == (cartridge, Err::<(), Error>(Error::IllegalWrite(address))),
{
}

/// Selecting a ROM bank on an MBC1: the low five bits of the bank are the
/// low five bits of the value, or 1 where those are zero, so that a read of
/// the switched window never resolves against a bank whose low bits are
/// zero; the upper bits stay. Where the upper bits are zero, as they are
/// after loading, writing 0 selects bank 1 and writing 5 selects bank 5.
pub proof fn lemma_mbc1_bank_select(cartridge: CartridgeModel, address: u16, data: u8)
    requires
        cartridge.controller == Controller::Mbc1,
        cartridge.valid(),
        0x2000 <= address < 0x4000,
    ensures
        cartridge.write(address, data).1 is Ok,
        cartridge.write(address, data).0.rom_bank % 32 != 0,
        cartridge.write(address, data).0.rom_bank % 32 == (if data % 32 == 0 {
            1int
        } else {
            data as int % 32
        }),
        cartridge.write(address, data).0.rom_bank / 32 == cartridge.rom_bank / 32,
        cartridge.rom_bank < 32 && data == 0 ==> cartridge.write(address, data).0.rom_bank == 1,
        cartridge.rom_bank < 32 && data == 5 ==> cartridge.write(address, data).0.rom_bank == 5,
{
}

/// A read of the switched window of a valid MBC1 resolves against the
/// selected bank, which is never bank 0.
pub proof fn lemma_mbc1_switched_window(cartridge: CartridgeModel, address: u16)
    requires
        cartridge.controller == Controller::Mbc1,
        cartridge.valid(),
        0x4000 <= address < 0x8000,
    ensures
        cartridge.rom_bank != 0,
        cartridge.rom_offset(address) >= 0x4000,
        cartridge.rom_offset(address) == cartridge.rom_bank * 0x4000 + (address - 0x4000),
        cartridge.rom_offset(address) < cartridge.rom.len() ==> cartridge.read(address) == Ok::<
            u8,
            Error,
        >(cartridge.rom[cartridge.rom_offset(address)]),
        cartridge.rom_offset(address) >= cartridge.rom.len() ==> cartridge.read(address) == Err::<
            u8,
            Error,
        >(Error::InvalidAddress(address)),
{
}

/// Writing to the RAM-enable window of an MBC1 leaves the cartridge RAM
/// enabled iff the value is 0x0A.
pub proof fn lemma_mbc1_ram_enable(cartridge: CartridgeModel, address: u16, data: u8)
    requires
        cartridge.controller == Controller::Mbc1,
        address < 0x2000,
    ensures
        cartridge.write(address, data).1 is Ok,
        cartridge.write(address, data).0.ram_enabled == (data == 0x0A),
{
}

/// Reads the ROM image through the selected bank.
pub(crate) fn read_rom(rom: &Vec<u8>, rom_bank: u16, address: u16) -> (result: Result<u8, Error>)
    requires
        address < 0x8000,
        rom_bank < 512,
    ensures
        result == (if rom_bank * 0x4000 + (address - 0x4000) < rom@.len() && address >= 0x4000 {
            Ok::<u8, Error>(rom@[rom_bank * 0x4000 + (address - 0x4000)])
        } else if address < 0x4000 && address < rom@.len() {
            Ok(rom@[address as int])
        } else {
            Err(Error::InvalidAddress(address))
        }),
{
    let offset: usize = if address < 0x4000 {
        address as usize
    } else {
        rom_bank as usize * 0x4000 + (address as usize - 0x4000)
    };
    if offset < rom.len() {
        Ok(rom[offset])
    } else {
        Err(Error::InvalidAddress(address))
    }
}

/// Reads a cell of cartridge RAM, if it can be reached.
pub(crate) fn read_ram(ram: &Vec<u8>, enabled: bool, offset: usize, address: u16) -> (result: Result<
    u8,
    Error,
>)
    ensures
        result == (if enabled && offset < ram@.len() {
            Ok::<u8, Error>(ram@[offset as int])
        } else {
            Err(Error::InvalidAddress(address))
        }),
{
    if enabled && offset < ram.len() {
        Ok(ram[offset])
    } else {
        Err(Error::InvalidAddress(address))
    }
}

/// A buffer of `len` zero bytes.
pub(crate) fn zeroed(len: usize) -> (buffer: Vec<u8>)
    ensures
        buffer@ == Seq::new(len as nat, |i: int| 0u8),
{
    let buffer: Vec<u8> = vec![0u8; len];
    assert(buffer@ =~= Seq::new(len as nat, |i: int| 0u8));
    buffer
}

/// The capability set of a cartridge: bytes are read through the selected
/// banks, and writes either select banks or store into cartridge RAM.
pub trait Cartridge {
    /// The state that reads and writes go by.
    spec fn model(&self) -> CartridgeModel;

    /// Reads the byte at `address`.
    fn read(&self, address: u16) -> (result: Result<u8, Error>)
        ensures
            result == self.model().read(address),
    ;

    /// Writes `data` to `address`: a bank selection, a store into cartridge
    /// RAM, or a refusal.
    fn write(&mut self, address: u16, data: u8) -> (result: Result<(), Error>)
        ensures
            (final(self).model(), result) == old(self).model().write(address, data),
    ;

    /// The whole ROM image, header included.
    fn image(&self) -> (rom: &Vec<u8>)
        ensures
            rom@ == self.model().rom,
            rom@.len() >= 0x0150,
            self.model().valid(),
    ;

    // ---------------- Metadata ---------------- //
    /// The title: the bytes 0x0134 to 0x0142, as text.
    fn title(&self) -> (title: String)
        ensures
            title@ == utf8_lossy(self.model().rom.subrange(0x0134, 0x0143)),
    {
        lossy_text(slice_subrange(self.image().as_slice(), 0x0134, 0x0143))
    }

    /// The manufacturer code: the bytes 0x013F to 0x0141, as text.
    fn manufacturer_code(&self) -> (code: String)
        ensures
            code@ == utf8_lossy(self.model().rom.subrange(0x013F, 0x0142)),
    {
        lossy_text(slice_subrange(self.image().as_slice(), 0x013F, 0x0142))
    }

    /// The CGB flag: set iff the byte 0x0143 is 0xC0.
    fn cgb_flag(&self) -> (flag: bool)
        ensures
            flag == (self.model().rom[0x0143] == 0xC0),
    {
        match self.image()[0x0143] {
            0x80 => false,
            0xC0 => true,
            _ => false,
        }
    }

    /// The SGB flag: set iff the byte 0x0146 is 0x03.
    fn sgb_flag(&self) -> (flag: bool)
        ensures
            flag == (self.model().rom[0x0146] == 0x03),
    {
        match self.image()[0x0146] {
            0x00 => false,
            0x03 => true,
            _ => false,
        }
    }

    /// The name of the kind of cartridge that the byte 0x0147 stands for.
    fn cartridge_type(&self) -> (name: &'static str)
        ensures
            name@ == cartridge_type_name(self.model().rom[0x0147]),
    {
        cartridge_type_for(self.image()[CARTRIDGE_TYPE_LOCATION])
    }

    /// The number of ROM banks that the byte 0x0148 stands for.
    fn rom_banks(&self) -> (banks: u16)
        ensures
            banks == rom_banks_of(self.model().rom[0x0148]),
    {
        rom_banks_for(self.image()[ROM_SIZE_LOCATION])
    }

    /// The size of the cartridge RAM that the byte 0x0149 stands for.
    fn ram_size(&self) -> (bytes: u32)
        ensures
            bytes == ram_size_of(self.model().rom[0x0149]),
    {
        ram_size_for(self.image()[RAM_SIZE_LOCATION])
    }

    /// The market that the byte 0x014A stands for.
    fn destination_code(&self) -> (name: &'static str)
        ensures
            name@ == destination_name(self.model().rom[0x014A]),
    {
        destination_for(self.image()[0x014A])
    }

    /// The publisher that the bytes 0x0144 and 0x0145 stand for.
    fn new_license_code(&self) -> (name: &'static str)
        ensures
            name@ == license_name(self.model().rom[0x0144], self.model().rom[0x0145]),
    {
        license_for(self.image()[0x0144], self.image()[0x0145])
    }

    /// The old license code: the byte 0x014B.
    fn old_license_code(&self) -> (code: u8)
        ensures
            code == self.model().rom[0x014B],
    {
        self.image()[0x014B]
    }

    /// The version number: the byte 0x014C.
    fn version_number(&self) -> (version: u8)
        ensures
            version == self.model().rom[0x014C],
    {
        self.image()[0x014C]
    }

    /// The header checksum: the byte 0x014D.
    fn checksum(&self) -> (sum: u8)
        ensures
            sum == self.model().rom[0x014D],
    {
        self.image()[0x014D]
    }

    /// The global checksum: the bytes 0x014E and 0x014F, high byte first.
    fn global_checksum(&self) -> (sum: u16)
        ensures
            sum == pack(self.model().rom[0x014E], self.model().rom[0x014F]),
    {
        as_u16(self.image()[0x014E], self.image()[0x014F])
    }
}

/// A loaded cartridge, whatever its controller. The controller is chosen
/// when the image is loaded and stays for the life of the cartridge.
pub enum AnyCartridge {
    RomOnly(RomOnly),
    Mbc1(Mbc1Cartridge),
    Mbc2(Mbc2Cartridge),
    Mbc3(Mbc3Cartridge),
    Mbc5(Mbc5Cartridge),
}

impl Cartridge for AnyCartridge {
    open spec fn model(&self) -> CartridgeModel {
        match self {
            AnyCartridge::RomOnly(cartridge) => cartridge.model(),
            AnyCartridge::Mbc1(cartridge) => cartridge.model(),
            AnyCartridge::Mbc2(cartridge) => cartridge.model(),
            AnyCartridge::Mbc3(cartridge) => cartridge.model(),
            AnyCartridge::Mbc5(cartridge) => cartridge.model(),
        }
    }

    fn read(&self, address: u16) -> (result: Result<u8, Error>) {
        match self {
            AnyCartridge::RomOnly(cartridge) => cartridge.read(address),
            AnyCartridge::Mbc1(cartridge) => cartridge.read(address),
            AnyCartridge::Mbc2(cartridge) => cartridge.read(address),
            AnyCartridge::Mbc3(cartridge) => cartridge.read(address),
            AnyCartridge::Mbc5(cartridge) => cartridge.read(address),
        }
    }

    fn write(&mut self, address: u16, data: u8) -> (result: Result<(), Error>) {
        match self {
            AnyCartridge::RomOnly(cartridge) => cartridge.write(address, data),
            AnyCartridge::Mbc1(cartridge) => cartridge.write(address, data),
            AnyCartridge::Mbc2(cartridge) => cartridge.write(address, data),
            AnyCartridge::Mbc3(cartridge) => cartridge.write(address, data),
            AnyCartridge::Mbc5(cartridge) => cartridge.write(address, data),
        }
    }

    fn image(&self) -> (rom: &Vec<u8>) {
        match self {
            AnyCartridge::RomOnly(cartridge) => cartridge.image(),
            AnyCartridge::Mbc1(cartridge) => cartridge.image(),
            AnyCartridge::Mbc2(cartridge) => cartridge.image(),
            AnyCartridge::Mbc3(cartridge) => cartridge.image(),
            AnyCartridge::Mbc5(cartridge) => cartridge.image(),
        }
    }
}

/// Loads a cartridge from its image. The cartridge-type byte of the header
/// selects the controller; an image whose byte names no supported
/// controller is refused as `UnsupportedCartridgeType`.
pub fn decode_cartridge(blob: Vec<u8>) -> (result: Result<AnyCartridge, Error>)
    requires
        blob@.len() >= 0x0150,
    ensures
        match controller_of(blob@[0x0147]) {
            Some(controller) => result matches Ok(cartridge) && cartridge.model()
                == CartridgeModel::fresh(controller, blob@),
            None => result matches Err(error) && error == Error::UnsupportedCartridgeType(
                blob@[0x0147],
            ),
        },
{
    let code: u8 = blob[CARTRIDGE_TYPE_LOCATION];
    let controller = match CartridgeType::from_code(code) {
        Some(kind) => kind.controller(),
        None => None,
    };
    match controller {
        Some(Controller::RomOnly) => Ok(AnyCartridge::RomOnly(RomOnly::new(blob))),
        Some(Controller::Mbc1) => Ok(AnyCartridge::Mbc1(Mbc1Cartridge::new(blob))),
        Some(Controller::Mbc2) => Ok(AnyCartridge::Mbc2(Mbc2Cartridge::new(blob))),
        Some(Controller::Mbc3) => Ok(AnyCartridge::Mbc3(Mbc3Cartridge::new(blob))),
        Some(Controller::Mbc5) => Ok(AnyCartridge::Mbc5(Mbc5Cartridge::new(blob))),
        None => Err(Error::UnsupportedCartridgeType(code)),
    }
}

} // verus!
