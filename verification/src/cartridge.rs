//! Cartridges: the ROM image, its header and the bank controllers.

pub mod cartridge;
pub mod metadata;
pub mod rom;
pub mod mbc1;
pub mod mbc2;
pub mod mbc3;
pub mod mbc5;

