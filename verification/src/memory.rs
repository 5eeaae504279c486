//! The 64 KiB address space and the memories behind it.

use vstd::prelude::*;
use crate::error::Error;
use crate::cartridge::cartridge::{AnyCartridge, Cartridge, CartridgeModel};

verus! {

pub type Address = u16;

/// The address whose byte tells whether the boot sequence has completed.
pub const BOOT_STATUS: Address = 0xFF50;

/// The image that is seen at the bottom of the address space until the boot
/// sequence has completed.
pub const BOOT_ROM: [u8; 256] = [
    0x31, 0xFE, 0xFF, 0xAF, 0x21, 0xFF, 0x9F, 0x32, 0xCB, 0x7C, 0x20, 0xFB, 0x21, 0x26, 0xFF, 0x0E,
    0x11, 0x3E, 0x80, 0x32, 0xE2, 0x0C, 0x3E, 0xF3, 0xE2, 0x32, 0x3E, 0x77, 0x77, 0x3E, 0xFC, 0xE0,
    0x47, 0x11, 0x04, 0x01, 0x21, 0x10, 0x80, 0x1A, 0xCD, 0x95, 0x00, 0xCD, 0x96, 0x00, 0x13, 0x7B,
    0xFE, 0x34, 0x20, 0xF3, 0x11, 0xD8, 0x00, 0x06, 0x08, 0x1A, 0x13, 0x22, 0x23, 0x05, 0x20, 0xF9,
    0x3E, 0x19, 0xEA, 0x10, 0x99, 0x21, 0x2F, 0x99, 0x0E, 0x0C, 0x3D, 0x28, 0x08, 0x32, 0x0D, 0x20,
    0xF9, 0x2E, 0x0F, 0x18, 0xF3, 0x67, 0x3E, 0x64, 0x57, 0xE0, 0x42, 0x3E, 0x91, 0xE0, 0x40, 0x04,
    0x1E, 0x02, 0x0E, 0x0C, 0xF0, 0x44, 0xFE, 0x90, 0x20, 0xFA, 0x0D, 0x20, 0xF7, 0x1D, 0x20, 0xF2,
    0x0E, 0x13, 0x24, 0x7C, 0x1E, 0x83, 0xFE, 0x62, 0x28, 0x06, 0x1E, 0xC1, 0xFE, 0x64, 0x20, 0x06,
    0x7B, 0xE2, 0x0C, 0x3E, 0x87, 0xE2, 0xF0, 0x42, 0x90, 0xE0, 0x42, 0x15, 0x20, 0xD2, 0x05, 0x20,
    0x4F, 0x16, 0x20, 0x18, 0xCB, 0x4F, 0x06, 0x04, 0xC5, 0xCB, 0x11, 0x17, 0xC1, 0xCB, 0x11, 0x17,
    0x05, 0x20, 0xF5, 0x22, 0x23, 0x22, 0x23, 0xC9, 0xCE, 0xED, 0x66, 0x66, 0xCC, 0x0D, 0x00, 0x0B,
    0x03, 0x73, 0x00, 0x83, 0x00, 0x0C, 0x00, 0x0D, 0x00, 0x08, 0x11, 0x1F, 0x88, 0x89, 0x00, 0x0E,
    0xDC, 0xCC, 0x6E, 0xE6, 0xDD, 0xDD, 0xD9, 0x99, 0xBB, 0xBB, 0x67, 0x63, 0x6E, 0x0E, 0xEC, 0xCC,
    0xDD, 0xDC, 0x99, 0x9F, 0xBB, 0xB9, 0x33, 0x3E, 0x3C, 0x42, 0xB9, 0xA5, 0xB9, 0xA5, 0x42, 0x3C,
    0x21, 0x04, 0x01, 0x11, 0xA8, 0x00, 0x1A, 0x13, 0xBE, 0x20, 0xFE, 0x23, 0x7D, 0xFE, 0x34, 0x20,
    0xF5, 0x06, 0x19, 0x78, 0x86, 0x23, 0x05, 0x20, 0xFB, 0x86, 0x20, 0xFE, 0x3E, 0x01, 0xE0, 0x50,
];

/// The windows that the address space is divided into.
#[derive(Clone, Copy, Debug, PartialEq, Eq, Structural)]
pub enum Region {
    /// 0x0000 to 0x7FFF.
    CartridgeRom,
    /// 0x8000 to 0x9FFF.
    VideoRam,
    /// 0xA000 to 0xBFFF.
    CartridgeRam,
    /// 0xC000 to 0xDFFF.
    WorkingRam,
    /// 0xE000 to 0xFDFF, a second view of the working RAM.
    EchoRam,
    /// 0xFE00 to 0xFE9F.
    ObjectAttributeMemory,
    /// 0xFEA0 to 0xFEFF.
    Unmapped,
    /// 0xFF00 to 0xFF7F.
    IoRegisters,
    /// 0xFF80 to 0xFFFE.
    HighRam,
    /// 0xFFFF.
    InterruptEnable,
}

/// The window that an address lies in. Every address lies in exactly one.
pub open spec fn region_of(address: Address) -> Region {
    if address < 0x8000 {
        Region::CartridgeRom
    } else if address < 0xA000 {
        Region::VideoRam
    } else if address < 0xC000 {
        Region::CartridgeRam
    } else if address < 0xE000 {
        Region::WorkingRam
    } else if address < 0xFE00 {
        Region::EchoRam
    } else if address < 0xFEA0 {
        Region::ObjectAttributeMemory
    } else if address < 0xFF00 {
        Region::Unmapped
    } else if address < 0xFF80 {
        Region::IoRegisters
    } else if address < 0xFFFF {
        Region::HighRam
    } else {
        Region::InterruptEnable
    }
}

/// Finds the window of an address, most specific boundaries first.
pub fn region(address: Address) -> (region: Region)
    ensures
        region == region_of(address),
{
    match address {
        0xFFFF..=0xFFFF => Region::InterruptEnable,
        0xFF80..=0xFFFE => Region::HighRam,
        0xFF00..=0xFF7F => Region::IoRegisters,
        0xFEA0..=0xFEFF => Region::Unmapped,
        0xFE00..=0xFE9F => Region::ObjectAttributeMemory,
        0xE000..=0xFDFF => Region::EchoRam,
        0xC000..=0xDFFF => Region::WorkingRam,
        0xA000..=0xBFFF => Region::CartridgeRam,
        0x8000..=0x9FFF => Region::VideoRam,
        0x0000..=0x7FFF => Region::CartridgeRom,
    }
}

/// The address space as its dispatch sees it.
#[verifier::ext_equal]
pub struct MemoryModel {
    pub work_ram: Seq<u8>,
    pub graphic_ram: Seq<u8>,
    pub object_attribute_memory: Seq<u8>,
    pub boot_status: u8,
    pub cartridge: CartridgeModel,
}

impl MemoryModel {
    /// The memories have their fixed sizes: 8 KiB of working RAM, 8 KiB of
    /// video RAM and 160 bytes of object-attribute memory.
    pub open spec fn valid(self) -> bool {
        &&& self.work_ram.len() == 8192
        &&& self.graphic_ram.len() == 8192
        &&& self.object_attribute_memory.len() == 160
    }

    /// The address space around a cartridge, before anything was written:
    /// every memory zeroed, the boot sequence not completed.
    pub open spec fn fresh(cartridge: CartridgeModel) -> MemoryModel {
        MemoryModel {
            work_ram: Seq::new(8192, |i: int| 0u8),
            graphic_ram: Seq::new(8192, |i: int| 0u8),
            object_attribute_memory: Seq::new(160, |i: int| 0u8),
            boot_status: 0,
            cartridge,
        }
    }

    /// Whether the boot sequence has completed, so that the cartridge is
    /// seen at the bottom of the address space.
    pub open spec fn cartridge_is_mapped(self) -> bool {
        self.boot_status == 1
    }

    /// The byte at an address.
    ///
    /// The ROM window shows the boot image in its first 256 bytes until the
    /// boot sequence has completed, and the cartridge otherwise. The RAM
    /// window of the cartridge is the cartridge's to answer. Of the
    /// I/O registers only the boot status is served here. High RAM and the
    /// interrupt register belong to the processor, and they, the unmapped
    /// window and the other I/O registers are `InvalidAddress`.
    pub open spec fn read(self, address: Address) -> Result<u8, Error> {
        match region_of(address) {
            Region::CartridgeRom => if !self.cartridge_is_mapped() && address < 0x0100 {
                Ok(BOOT_ROM[address as int])
            } else {
                self.cartridge.read(address)
            },
            Region::VideoRam => Ok(self.graphic_ram[address - 0x8000]),
            Region::CartridgeRam => self.cartridge.read(address),
            Region::WorkingRam => Ok(self.work_ram[address - 0xC000]),
            Region::EchoRam => Ok(self.work_ram[address - 0xE000]),
            Region::ObjectAttributeMemory => Ok(self.object_attribute_memory[address - 0xFE00]),
            Region::IoRegisters => if address == BOOT_STATUS {
                Ok(self.boot_status)
            } else {
                Err(Error::InvalidAddress(address))
            },
            _ => Err(Error::InvalidAddress(address)),
        }
    }

    /// The address space after a write, and whether the write was accepted.
    ///
    /// A write into the ROM or RAM window of the cartridge is the
    /// cartridge's to accept or refuse. The other windows are as for a
    /// read; a refused write changes nothing.
    pub open spec fn write(self, address: Address, data: u8) -> (MemoryModel, Result<(), Error>) {
        match region_of(address) {
            Region::CartridgeRom | Region::CartridgeRam => (
                MemoryModel { cartridge: self.cartridge.write(address, data).0, ..self },
                self.cartridge.write(address, data).1,
            ),
            Region::VideoRam => (
                MemoryModel { graphic_ram: self.graphic_ram.update(address - 0x8000, data), ..self },
                Ok(()),
            ),
            Region::WorkingRam => (
                MemoryModel { work_ram: self.work_ram.update(address - 0xC000, data), ..self },
                Ok(()),
            ),
            Region::EchoRam => (
                MemoryModel { work_ram: self.work_ram.update(address - 0xE000, data), ..self },
                Ok(()),
            ),
            Region::ObjectAttributeMemory => (
                MemoryModel {
                    object_attribute_memory: self.object_attribute_memory.update(
                        address - 0xFE00,
                        data,
                    ),
                    ..self
                },
                Ok(()),
            ),
            Region::IoRegisters => if address == BOOT_STATUS {
                (MemoryModel { boot_status: data, ..self }, Ok(()))
            } else {
                (self, Err(Error::InvalidAddress(address)))
            },
            _ => (self, Err(Error::InvalidAddress(address))),
        }
    }
}

/// Echo RAM is a second view of the working RAM: an address of the echo
/// window reads as the address 0x2000 below it, and a write to one is seen
/// at the other.
pub proof fn lemma_echo_mirrors_working_ram(memory: MemoryModel, address: Address, data: u8)
    requires
        memory.valid(),
        0xE000 <= address <= 0xFDFF,
    ensures
        memory.read(address) == memory.read((address - 0x2000) as u16),
        memory.write(address, data) == memory.write((address - 0x2000) as u16, data),
        memory.write(address, data).0.read((address - 0x2000) as u16) == Ok::<u8, Error>(data),
{
}

pub struct MemorySpace {
    // 8KB Working RAM
    // 8KB Video RAM
    work_ram: [u8; 8192],
    graphic_ram: [u8; 8192],
    object_attribute_memory: [u8; 160],
    boot_status: u8,
    cartridge: AnyCartridge,
}

impl View for MemorySpace {
    type V = MemoryModel;

    closed spec fn view(&self) -> MemoryModel {
        MemoryModel {
            work_ram: self.work_ram@,
            graphic_ram: self.graphic_ram@,
            object_attribute_memory: self.object_attribute_memory@,
            boot_status: self.boot_status,
            cartridge: self.cartridge.model(),
        }
    }
}

impl MemorySpace {
    pub fn new(cartridge: AnyCartridge) -> (memory: MemorySpace)
        ensures
            memory@ == MemoryModel::fresh(cartridge.model()),
    {
        let memory = MemorySpace {
            work_ram: [0; 8192],
            graphic_ram: [0; 8192],
            object_attribute_memory: [0; 160],
            boot_status: 0,
            cartridge,
        };
        assert(memory.work_ram@ =~= Seq::new(8192, |i: int| 0u8));
        assert(memory.graphic_ram@ =~= Seq::new(8192, |i: int| 0u8));
        assert(memory.object_attribute_memory@ =~= Seq::new(160, |i: int| 0u8));
        memory
    }

    /// The memories of an address space always have their fixed sizes.
    pub proof fn lemma_valid(&self)
        ensures
            self@.valid(),
    {
    }

    pub fn cartridge_is_mapped(&self) -> (mapped: bool)
        ensures
            mapped == self@.cartridge_is_mapped(),
    {
        self.boot_status == 1
    }

    /// The cartridge behind the address space.
    pub fn cartridge(&self) -> (cartridge: &AnyCartridge)
        ensures
            cartridge.model() == self@.cartridge,
    {
        &self.cartridge
    }

    /// Reads the byte at `address`.
    pub fn read(&self, address: Address) -> (result: Result<u8, Error>)
        ensures
            result == self@.read(address),
    {
        match region(address) {
            Region::CartridgeRom => {
                if !self.cartridge_is_mapped() && address < 0x0100 {
                    Ok(BOOT_ROM[address as usize])
                } else {
                    self.cartridge.read(address)
                }
            },
            Region::VideoRam => Ok(self.graphic_ram[(address - 0x8000) as usize]),
            Region::CartridgeRam => self.cartridge.read(address),
            Region::WorkingRam => Ok(self.work_ram[(address - 0xC000) as usize]),
            Region::EchoRam => Ok(self.work_ram[(address - 0xE000) as usize]),
            Region::ObjectAttributeMemory => Ok(
                self.object_attribute_memory[(address - 0xFE00) as usize],
            ),
            Region::IoRegisters => {
                if address == BOOT_STATUS {
                    Ok(self.boot_status)
                } else {
                    Err(Error::InvalidAddress(address))
                }
            },
            Region::Unmapped | Region::HighRam | Region::InterruptEnable => Err(
                Error::InvalidAddress(address),
            ),
        }
    }

    /// Writes `data` to `address`.
    pub fn write(&mut self, address: Address, data: u8) -> (result: Result<(), Error>)
        ensures
            (final(self)@, result) == old(self)@.write(address, data),
    {
        match region(address) {
            Region::CartridgeRom | Region::CartridgeRam => self.cartridge.write(address, data),
            Region::VideoRam => {
                self.graphic_ram[(address - 0x8000) as usize] = data;
                Ok(())
            },
            Region::WorkingRam => {
                self.work_ram[(address - 0xC000) as usize] = data;
                Ok(())
            },
            Region::EchoRam => {
                self.work_ram[(address - 0xE000) as usize] = data;
                Ok(())
            },
            Region::ObjectAttributeMemory => {
                self.object_attribute_memory[(address - 0xFE00) as usize] = data;
                Ok(())
            },
            Region::IoRegisters => {
                if address == BOOT_STATUS {
                    self.boot_status = data;
                    Ok(())
                } else {
                    Err(Error::InvalidAddress(address))
                }
            },
            Region::Unmapped | Region::HighRam | Region::InterruptEnable => Err(
                Error::InvalidAddress(address),
            ),
        }
    }
}

} // verus!
