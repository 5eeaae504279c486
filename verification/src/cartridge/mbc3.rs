//! The cartridge with an MBC3 bank controller.

use vstd::prelude::*;
use crate::error::Error;
use crate::cartridge::cartridge::{
    BankMode,
    Cartridge,
    CartridgeModel,
    Controller,
    read_ram,
    read_rom,
    zeroed,
};
use crate::cartridge::metadata::{ram_size_for, RAM_SIZE_LOCATION};

verus! {

pub struct Mbc3Cartridge {
    data: Vec<u8>,
    ram: Vec<u8>,
    rom_bank: u8,
    ram_bank: u8,
    ram_enabled: bool,
}

impl Mbc3Cartridge {
    #[verifier::type_invariant]
    spec fn well_formed(self) -> bool {
        &&& self.data@.len() >= 0x0150
        &&& self.ram@.len() <= 131072
        &&& 1 <= self.rom_bank < 128
        &&& self.ram_bank < 4
    }

    pub fn new(data: Vec<u8>) -> (cartridge: Mbc3Cartridge)
        requires
            data@.len() >= 0x0150,
        ensures
            cartridge.model() == CartridgeModel::fresh(Controller::Mbc3, data@),
    {
        let ram = zeroed(ram_size_for(data[RAM_SIZE_LOCATION]) as usize);
        Mbc3Cartridge { data, ram, rom_bank: 1, ram_bank: 0, ram_enabled: false }
    }

    /// The offset into the cartridge RAM that an address of the RAM window
    /// stands for.
    fn ram_index(&self, address: u16) -> (offset: usize)
        requires
            0xA000 <= address < 0xC000,
        ensures
            offset == self.model().ram_offset(address),
    {
        proof {
            use_type_invariant(self);
        }
        self.ram_bank as usize * 0x2000 + (address as usize - 0xA000)
    }
}

impl Cartridge for Mbc3Cartridge {
    closed spec fn model(&self) -> CartridgeModel {
        CartridgeModel {
            controller: Controller::Mbc3,
            rom: self.data@,
            ram: self.ram@,
            rom_bank: self.rom_bank as u16,
            ram_bank: self.ram_bank,
            ram_enabled: self.ram_enabled,
            bank_mode: BankMode::ROM,
        }
    }

    fn read(&self, address: u16) -> (result: Result<u8, Error>) {
        proof {
            use_type_invariant(self);
        }
        if address < 0x8000 {
            read_rom(&self.data, self.rom_bank as u16, address)
        } else if address >= 0xA000 && address < 0xC000 {
            read_ram(&self.ram, self.ram_enabled, self.ram_index(address), address)
        } else {
            Err(Error::InvalidAddress(address))
        }
    }

    fn write(&mut self, address: u16, data: u8) -> (result: Result<(), Error>) {
        proof {
            use_type_invariant(&*self);
        }
        if address < 0x2000 {
            self.ram_enabled = data % 16 == 0x0A;
            Ok(())
        } else if address < 0x4000 {
            self.rom_bank = if data % 128 == 0 { 1 } else { data % 128 };
            Ok(())
        } else if address < 0x6000 {
            if data < 4 {
                self.ram_bank = data;
                Ok(())
            } else {
                Err(Error::IllegalWrite(address))
            }
        } else if address < 0x8000 {
            Err(Error::IllegalWrite(address))
        } else if address >= 0xA000 && address < 0xC000 {
            let offset = self.ram_index(address);
            if self.ram_enabled && offset < self.ram.len() {
                self.ram[offset] = data;
                Ok(())
            } else {
                Err(Error::InvalidAddress(address))
            }
        } else {
            Err(Error::InvalidAddress(address))
        }
    }

    fn image(&self) -> (rom: &Vec<u8>) {
        proof {
            use_type_invariant(self);
        }
        &self.data
    }
}

} // verus!
