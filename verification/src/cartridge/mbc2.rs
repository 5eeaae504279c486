//! The cartridge with an MBC2 bank controller.

use vstd::prelude::*;
use crate::error::Error;
use crate::cartridge::cartridge::{
    BankMode,
    Cartridge,
    CartridgeModel,
    Controller,
    read_ram,
    read_rom,
    zeroed,
};

verus! {

pub struct Mbc2Cartridge {
    data: Vec<u8>,
    ram: Vec<u8>,
    rom_bank: u8,
    ram_enabled: bool,
}

impl Mbc2Cartridge {
    #[verifier::type_invariant]
    spec fn well_formed(self) -> bool {
        &&& self.data@.len() >= 0x0150
        &&& self.ram@.len() == 512
        &&& 1 <= self.rom_bank < 16
    }

    pub fn new(data: Vec<u8>) -> (cartridge: Mbc2Cartridge)
        requires
            data@.len() >= 0x0150,
        ensures
            cartridge.model() == CartridgeModel::fresh(Controller::Mbc2, data@),
    {
        let ram = zeroed(512);
        Mbc2Cartridge { data, ram, rom_bank: 1, ram_enabled: false }
    }
}

impl Cartridge for Mbc2Cartridge {
    closed spec fn model(&self) -> CartridgeModel {
        CartridgeModel {
            controller: Controller::Mbc2,
            rom: self.data@,
            ram: self.ram@,
            rom_bank: self.rom_bank as u16,
            ram_bank: 0,
            ram_enabled: self.ram_enabled,
            bank_mode: BankMode::ROM,
        }
    }

    fn read(&self, address: u16) -> (result: Result<u8, Error>) {
        proof {
            use_type_invariant(self);
        }
        if address < 0x8000 {
            read_rom(&self.data, self.rom_bank as u16, address)
        } else if address >= 0xA000 && address < 0xC000 {
            read_ram(&self.ram, self.ram_enabled, (address as usize - 0xA000) % 512, address)
        } else {
            Err(Error::InvalidAddress(address))
        }
    }

    fn write(&mut self, address: u16, data: u8) -> (result: Result<(), Error>) {
        proof {
            use_type_invariant(&*self);
        }
        if address < 0x4000 {
            if (address / 256) % 2 == 0 {
                self.ram_enabled = data % 16 == 0x0A;
            } else {
                self.rom_bank = if data % 16 == 0 { 1 } else { data % 16 };
            }
            Ok(())
        } else if address < 0x8000 {
            Err(Error::IllegalWrite(address))
        } else if address >= 0xA000 && address < 0xC000 && self.ram_enabled {
            let offset: usize = (address as usize - 0xA000) % 512;
            self.ram[offset] = data % 16;
            Ok(())
        } else {
            Err(Error::InvalidAddress(address))
        }
    }

    fn image(&self) -> (rom: &Vec<u8>) {
        proof {
            use_type_invariant(self);
        }
        &self.data
    }
}

} // verus!
