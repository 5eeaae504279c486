//! The cartridge without a bank controller.

use vstd::prelude::*;
use crate::error::Error;
use crate::cartridge::cartridge::{Cartridge, CartridgeModel, Controller, read_rom};

verus! {

/// A plain ROM: 32 KiB at most can be seen, and nothing can be written.
pub struct RomOnly {
    data: Vec<u8>,
}

impl RomOnly {
    #[verifier::type_invariant]
    spec fn well_formed(self) -> bool {
        self.data@.len() >= 0x0150
    }

    pub fn new(data: Vec<u8>) -> (cartridge: RomOnly)
        requires
            data@.len() >= 0x0150,
        ensures
            cartridge.model() == CartridgeModel::fresh(Controller::RomOnly, data@),
    {
        RomOnly { data }
    }
}

impl Cartridge for RomOnly {
    closed spec fn model(&self) -> CartridgeModel {
        CartridgeModel::fresh(Controller::RomOnly, self.data@)
    }

    fn read(&self, address: u16) -> (result: Result<u8, Error>) {
        if address < 0x8000 {
            read_rom(&self.data, 1, address)
        } else {
            Err(Error::InvalidAddress(address))
        }
    }

    fn write(&mut self, address: u16, data: u8) -> (result: Result<(), Error>) {
        Err(Error::IllegalWrite(address))
    }

    fn image(&self) -> (rom: &Vec<u8>) {
        proof {
            use_type_invariant(self);
        }
        &self.data
    }
}

} // verus!
