//! The cartridge with an MBC1 bank controller.

use vstd::prelude::*;
use crate::error::Error;
use crate::cartridge::cartridge::{
    BankMode,
    Cartridge,
    CartridgeModel,
    Controller,
    read_ram,
    read_rom,
    zeroed,
};
use crate::cartridge::metadata::{ram_size_for, RAM_SIZE_LOCATION};

verus! {

pub struct Mbc1Cartridge {
    data: Vec<u8>,
    ram: Vec<u8>,
    current_rom_bank: u8,
    current_ram_bank: u8,
    ram_enabled: bool,
    bank_mode: BankMode,
}

impl Mbc1Cartridge {
    #[verifier::type_invariant]
    spec fn well_formed(self) -> bool {
        &&& self.data@.len() >= 0x0150
        &&& self.ram@.len() <= 131072
        &&& self.current_rom_bank < 128
        &&& self.current_rom_bank % 32 != 0
        &&& self.current_ram_bank < 4
    }

    pub fn new(blob: Vec<u8>) -> (cartridge: Mbc1Cartridge)
        requires
            blob@.len() >= 0x0150,
        ensures
            cartridge.model() == CartridgeModel::fresh(Controller::Mbc1, blob@),
    {
        let ram = zeroed(ram_size_for(blob[RAM_SIZE_LOCATION]) as usize);
        Mbc1Cartridge {
            data: blob,
            ram,
            current_rom_bank: 1,
            current_ram_bank: 0,
            ram_enabled: false,
            bank_mode: BankMode::ROM,
        }
    }

    /// The offset into the cartridge RAM that an address of the RAM window
    /// stands for.
    fn ram_index(&self, address: u16) -> (offset: usize)
        requires
            0xA000 <= address < 0xC000,
        ensures
            offset == self.model().ram_offset(address),
    {
        proof {
            use_type_invariant(self);
        }
        self.current_ram_bank as usize * 0x2000 + (address as usize - 0xA000)
    }
}

impl Cartridge for Mbc1Cartridge {
    closed spec fn model(&self) -> CartridgeModel {
        CartridgeModel {
            controller: Controller::Mbc1,
            rom: self.data@,
            ram: self.ram@,
            rom_bank: self.current_rom_bank as u16,
            ram_bank: self.current_ram_bank,
            ram_enabled: self.ram_enabled,
            bank_mode: self.bank_mode,
        }
    }

    fn read(&self, address: u16) -> (result: Result<u8, Error>) {
        proof {
            use_type_invariant(self);
        }
        if address < 0x8000 {
            read_rom(&self.data, self.current_rom_bank as u16, address)
        } else if address >= 0xA000 && address < 0xC000 {
            read_ram(&self.ram, self.ram_enabled, self.ram_index(address), address)
        } else {
            Err(Error::InvalidAddress(address))
        }
    }

    fn write(&mut self, address: u16, data: u8) -> (result: Result<(), Error>) {
        proof {
            use_type_invariant(&*self);
        }
        if address < 0x2000 {
            self.ram_enabled = data == 0x0A;
            Ok(())
        } else if address < 0x4000 {
            let low: u8 = if data % 32 == 0 { 1 } else { data % 32 };
            self.current_rom_bank = self.current_rom_bank / 32 * 32 + low;
            Ok(())
        } else if address < 0x6000 {
            match self.bank_mode {
                BankMode::ROM => {
                    self.current_rom_bank = data / 64 * 32 + self.current_rom_bank % 32;
                },
                BankMode::RAM => {
                    self.current_ram_bank = data / 64;
                },
            }
            Ok(())
        } else if address < 0x8000 {
            if data == 0 {
                self.bank_mode = BankMode::ROM;
                Ok(())
            } else if data == 1 {
                self.bank_mode = BankMode::RAM;
                Ok(())
            } else {
                Err(Error::InvalidBankingMode(data))
            }
        } else if address >= 0xA000 && address < 0xC000 {
            let offset = self.ram_index(address);
            if self.ram_enabled && offset < self.ram.len() {
                self.ram[offset] = data;
                Ok(())
            } else {
                Err(Error::InvalidAddress(address))
            }
        } else {
            Err(Error::InvalidAddress(address))
        }
    }

    fn image(&self) -> (rom: &Vec<u8>) {
        proof {
            use_type_invariant(self);
        }
        &self.data
    }
}

} // verus!
