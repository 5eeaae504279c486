//! The fixed tables of the cartridge header.

use vstd::prelude::*;
use crate::cartridge::cartridge::Controller;

verus! {

/// Offset of the cartridge-type byte.
pub const CARTRIDGE_TYPE_LOCATION: usize = 0x0147;

/// Offset of the ROM-size code.
pub const ROM_SIZE_LOCATION: usize = 0x0148;

/// Offset of the RAM-size code.
pub const RAM_SIZE_LOCATION: usize = 0x0149;

/// Length of the shortest image that holds a whole header.
pub const HEADER_END: usize = 0x0150;

/// The number of ROM banks that a ROM-size code stands for; 0 for a code
/// outside the table.
pub open spec fn rom_banks_of(code: u8) -> u16 {
    if code == 0x01 {
        4
    } else if code == 0x02 {
        8
    } else if code == 0x03 {
        16
    } else if code == 0x04 {
        32
    } else if code == 0x05 {
        64
    } else if code == 0x06 {
        128
    } else if code == 0x07 {
        256
    } else if code == 0x08 {
        512
    } else if code == 0x52 {
        72
    } else if code == 0x53 {
        80
    } else if code == 0x54 {
        96
    } else {
        0
    }
}

/// The number of bytes of cartridge RAM that a RAM-size code stands for; 0
/// for a code outside the table.
pub open spec fn ram_size_of(code: u8) -> u32 {
    if code == 0x01 {
        2048
    } else if code == 0x02 {
        8192
    } else if code == 0x03 {
        32768
    } else if code == 0x04 {
        131072
    } else if code == 0x05 {
        65536
    } else {
        0
    }
}

/// Looks a ROM-size code up.
pub fn rom_banks_for(code: u8) -> (banks: u16)
    ensures
        banks == rom_banks_of(code),
{
    match code {
        0x00 => 0,
        0x01 => 4,
        0x02 => 8,
        0x03 => 16,
        0x04 => 32,
        0x05 => 64,
        0x06 => 128,
        0x07 => 256,
        0x08 => 512,
        0x52 => 72,
        0x53 => 80,
        0x54 => 96,
        _ => 0,
    }
}

/// Looks a RAM-size code up.
pub fn ram_size_for(code: u8) -> (bytes: u32)
    ensures
        bytes == ram_size_of(code),
{
    match code {
        0x00 => 0,
        0x01 => 2048,
        0x02 => 8192,
        0x03 => 32_768,
        0x04 => 131_072,
        0x05 => 65_536,
        _ => 0,
    }
}

/// The kinds of cartridge that the cartridge-type byte of the header names.
#[derive(Clone, Copy, Debug, PartialEq, Eq)]
pub enum CartridgeType {
    RomOnly,
    Mbc1,
    Mbc1Ram,
    Mbc1RamBattery,
    Mbc2,
    Mbc2Battery,
    RomRam,
    RomRamBattery,
    Mmm01,
    Mmm01Ram,
    Mmm01RamBattery,
    Mbc3TimerBattery,
    Mbc3TimerRamBattery,
    Mbc3,
    Mbc3Ram,
    Mbc3RamBattery,
    MBC5,
    Mbc5Ram,
    Mbc5RamBattery,
    Mbc5Rumble,
    Mbc5RumbleRam,
    Mbc5RumbleRamBattery,
    MBC6,
    Mbc7SensorRumbleRamBattery,
    PocketCamera,
    BandaiTama5,
    HuC3,
    HuC1RamBattery,
}

/// The controller that serves a cartridge-type byte: none for 0x00, 0x08
/// and 0x09, an MBC1 for 0x01 to 0x03, an MBC2 for 0x05 and 0x06, an MBC3
/// for 0x0F to 0x13, an MBC5 for 0x19 to 0x1E. No other byte is supported.
pub open spec fn controller_of(code: u8) -> Option<Controller> {
    if code == 0x00 || code == 0x08 || code == 0x09 {
        Some(Controller::RomOnly)
    } else if 0x01 <= code <= 0x03 {
        Some(Controller::Mbc1)
    } else if code == 0x05 || code == 0x06 {
        Some(Controller::Mbc2)
    } else if 0x0F <= code <= 0x13 {
        Some(Controller::Mbc3)
    } else if 0x19 <= code <= 0x1E {
        Some(Controller::Mbc5)
    } else {
        None
    }
}

impl CartridgeType {
    /// The header byte that names the kind.
    pub open spec fn code_spec(self) -> u8 {
        match self {
            CartridgeType::RomOnly => 0x00,
            CartridgeType::Mbc1 => 0x01,
            CartridgeType::Mbc1Ram => 0x02,
            CartridgeType::Mbc1RamBattery => 0x03,
            CartridgeType::Mbc2 => 0x05,
            CartridgeType::Mbc2Battery => 0x06,
            CartridgeType::RomRam => 0x08,
            CartridgeType::RomRamBattery => 0x09,
            CartridgeType::Mmm01 => 0x0B,
            CartridgeType::Mmm01Ram => 0x0C,
            CartridgeType::Mmm01RamBattery => 0x0D,
            CartridgeType::Mbc3TimerBattery => 0x0F,
            CartridgeType::Mbc3TimerRamBattery => 0x10,
            CartridgeType::Mbc3 => 0x11,
            CartridgeType::Mbc3Ram => 0x12,
            CartridgeType::Mbc3RamBattery => 0x13,
            CartridgeType::MBC5 => 0x19,
            CartridgeType::Mbc5Ram => 0x1A,
            CartridgeType::Mbc5RamBattery => 0x1B,
            CartridgeType::Mbc5Rumble => 0x1C,
            CartridgeType::Mbc5RumbleRam => 0x1D,
            CartridgeType::Mbc5RumbleRamBattery => 0x1E,
            CartridgeType::MBC6 => 0x20,
            CartridgeType::Mbc7SensorRumbleRamBattery => 0x22,
            CartridgeType::PocketCamera => 0xFC,
            CartridgeType::BandaiTama5 => 0xFD,
            CartridgeType::HuC3 => 0xFE,
            CartridgeType::HuC1RamBattery => 0xFF,
        }
    }

    /// The header byte that names the kind.
    pub fn code(self) -> (code: u8)
        ensures
            code == self.code_spec(),
    {
        match self {
            CartridgeType::RomOnly => 0x00,
            CartridgeType::Mbc1 => 0x01,
            CartridgeType::Mbc1Ram => 0x02,
            CartridgeType::Mbc1RamBattery => 0x03,
            CartridgeType::Mbc2 => 0x05,
            CartridgeType::Mbc2Battery => 0x06,
            CartridgeType::RomRam => 0x08,
            CartridgeType::RomRamBattery => 0x09,
            CartridgeType::Mmm01 => 0x0B,
            CartridgeType::Mmm01Ram => 0x0C,
            CartridgeType::Mmm01RamBattery => 0x0D,
            CartridgeType::Mbc3TimerBattery => 0x0F,
            CartridgeType::Mbc3TimerRamBattery => 0x10,
            CartridgeType::Mbc3 => 0x11,
            CartridgeType::Mbc3Ram => 0x12,
            CartridgeType::Mbc3RamBattery => 0x13,
            CartridgeType::MBC5 => 0x19,
            CartridgeType::Mbc5Ram => 0x1A,
            CartridgeType::Mbc5RamBattery => 0x1B,
            CartridgeType::Mbc5Rumble => 0x1C,
            CartridgeType::Mbc5RumbleRam => 0x1D,
            CartridgeType::Mbc5RumbleRamBattery => 0x1E,
            CartridgeType::MBC6 => 0x20,
            CartridgeType::Mbc7SensorRumbleRamBattery => 0x22,
            CartridgeType::PocketCamera => 0xFC,
            CartridgeType::BandaiTama5 => 0xFD,
            CartridgeType::HuC3 => 0xFE,
            CartridgeType::HuC1RamBattery => 0xFF,
        }
    }

    /// The kind that a header byte names, if it names one.
    pub fn from_code(code: u8) -> (kind: Option<CartridgeType>)
        ensures
            kind matches Some(k) ==> k.code_spec() == code,
            kind is None ==> forall|k: CartridgeType| k.code_spec() != code,
            kind is None ==> controller_of(code) is None,
    {
        match code {
            0x00 => Some(CartridgeType::RomOnly),
            0x01 => Some(CartridgeType::Mbc1),
            0x02 => Some(CartridgeType::Mbc1Ram),
            0x03 => Some(CartridgeType::Mbc1RamBattery),
            0x05 => Some(CartridgeType::Mbc2),
            0x06 => Some(CartridgeType::Mbc2Battery),
            0x08 => Some(CartridgeType::RomRam),
            0x09 => Some(CartridgeType::RomRamBattery),
            0x0B => Some(CartridgeType::Mmm01),
            0x0C => Some(CartridgeType::Mmm01Ram),
            0x0D => Some(CartridgeType::Mmm01RamBattery),
            0x0F => Some(CartridgeType::Mbc3TimerBattery),
            0x10 => Some(CartridgeType::Mbc3TimerRamBattery),
            0x11 => Some(CartridgeType::Mbc3),
            0x12 => Some(CartridgeType::Mbc3Ram),
            0x13 => Some(CartridgeType::Mbc3RamBattery),
            0x19 => Some(CartridgeType::MBC5),
            0x1A => Some(CartridgeType::Mbc5Ram),
            0x1B => Some(CartridgeType::Mbc5RamBattery),
            0x1C => Some(CartridgeType::Mbc5Rumble),
            0x1D => Some(CartridgeType::Mbc5RumbleRam),
            0x1E => Some(CartridgeType::Mbc5RumbleRamBattery),
            0x20 => Some(CartridgeType::MBC6),
            0x22 => Some(CartridgeType::Mbc7SensorRumbleRamBattery),
            0xFC => Some(CartridgeType::PocketCamera),
            0xFD => Some(CartridgeType::BandaiTama5),
            0xFE => Some(CartridgeType::HuC3),
            0xFF => Some(CartridgeType::HuC1RamBattery),
            _ => None,
        }
    }

    /// The controller that serves cartridges of this kind, if one does.
    pub fn controller(self) -> (controller: Option<Controller>)
        ensures
            controller == controller_of(self.code_spec()),
    {
        match self {
            CartridgeType::RomOnly | CartridgeType::RomRam | CartridgeType::RomRamBattery => Some(
                Controller::RomOnly,
            ),
            CartridgeType::Mbc1 | CartridgeType::Mbc1Ram | CartridgeType::Mbc1RamBattery => Some(
                Controller::Mbc1,
            ),
            CartridgeType::Mbc2 | CartridgeType::Mbc2Battery => Some(Controller::Mbc2),
            CartridgeType::Mbc3TimerBattery
            | CartridgeType::Mbc3TimerRamBattery
            | CartridgeType::Mbc3
            | CartridgeType::Mbc3Ram
            | CartridgeType::Mbc3RamBattery => Some(Controller::Mbc3),
            CartridgeType::MBC5
            | CartridgeType::Mbc5Ram
            | CartridgeType::Mbc5RamBattery
            | CartridgeType::Mbc5Rumble
            | CartridgeType::Mbc5RumbleRam
            | CartridgeType::Mbc5RumbleRamBattery => Some(Controller::Mbc5),
            _ => None,
        }
    }
}

/// The name of the kind of cartridge that a cartridge-type byte stands for.
pub open spec fn cartridge_type_name(code: u8) -> Seq<char> {
    if code == 0x00 {
        "ROM ONLY"@
    } else if code == 0x01 {
        "MBC1"@
    } else if code == 0x02 {
        "MBC1+RAM"@
    } else if code == 0x03 {
        "MBC1+RAM+BATTERY"@
    } else if code == 0x05 {
        "MBC2"@
    } else if code == 0x06 {
        "MBC2+BATTERY"@
    } else if code == 0x08 {
        "ROM+RAM"@
    } else if code == 0x09 {
        "ROM+RAM+BATTERY"@
    } else if code == 0x0B {
        "MMM01"@
    } else if code == 0x0C {
        "MMM01+RAM"@
    } else if code == 0x0D {
        "MMM01+RAM+BATTERY"@
    } else if code == 0x0F {
        "MBC3+TIMER+BATTERY"@
    } else if code == 0x10 {
        "MBC3+TIMER+RAM+BATTERY"@
    } else if code == 0x11 {
        "MBC3"@
    } else if code == 0x12 {
        "MBC3+RAM"@
    } else if code == 0x13 {
        "MBC3+RAM+BATTERY"@
    } else if code == 0x19 {
        "MBC5"@
    } else if code == 0x1A {
        "MBC5+RAM"@
    } else if code == 0x1B {
        "MBC5+RAM+BATTERY"@
    } else if code == 0x1C {
        "MBC5+RUMBLE"@
    } else if code == 0x1D {
        "MBC5+RUMBLE+RAM"@
    } else if code == 0x1E {
        "MBC5+RUMBLE+RAM+BATTERY"@
    } else if code == 0x20 {
        "MBC6"@
    } else if code == 0x22 {
        "MBC7+SENSOR+RUMBLE+RAM+BATTERY"@
    } else if code == 0xFC {
        "POCKET CAMERA"@
    } else if code == 0xFD {
        "BANDAI TAMA5"@
    } else if code == 0xFE {
        "HuC3"@
    } else if code == 0xFF {
        "HuC1+RAM+BATTERY"@
    } else {
        "Unknown"@
    }
}

/// Names a cartridge-type byte.
pub fn cartridge_type_for(code: u8) -> (name: &'static str)
    ensures
        name@ == cartridge_type_name(code),
{
    match code {
        0x00 => "ROM ONLY",
        0x01 => "MBC1",
        0x02 => "MBC1+RAM",
        0x03 => "MBC1+RAM+BATTERY",
        0x05 => "MBC2",
        0x06 => "MBC2+BATTERY",
        0x08 => "ROM+RAM",
        0x09 => "ROM+RAM+BATTERY",
        0x0B => "MMM01",
        0x0C => "MMM01+RAM",
        0x0D => "MMM01+RAM+BATTERY",
        0x0F => "MBC3+TIMER+BATTERY",
        0x10 => "MBC3+TIMER+RAM+BATTERY",
        0x11 => "MBC3",
        0x12 => "MBC3+RAM",
        0x13 => "MBC3+RAM+BATTERY",
        0x19 => "MBC5",
        0x1A => "MBC5+RAM",
        0x1B => "MBC5+RAM+BATTERY",
        0x1C => "MBC5+RUMBLE",
        0x1D => "MBC5+RUMBLE+RAM",
        0x1E => "MBC5+RUMBLE+RAM+BATTERY",
        0x20 => "MBC6",
        0x22 => "MBC7+SENSOR+RUMBLE+RAM+BATTERY",
        0xFC => "POCKET CAMERA",
        0xFD => "BANDAI TAMA5",
        0xFE => "HuC3",
        0xFF => "HuC1+RAM+BATTERY",
        _ => "Unknown",
    }
}

/// The market that a destination code stands for.
pub open spec fn destination_name(code: u8) -> Seq<char> {
    if code == 0x00 {
        "Japanese"@
    } else if code == 0x01 {
        "Non-Japanese"@
    } else {
        "Unknown"@
    }
}

/// Names a destination code.
pub fn destination_for(code: u8) -> (name: &'static str)
    ensures
        name@ == destination_name(code),
{
    match code {
        0x00 => "Japanese",
        0x01 => "Non-Japanese",
        _ => "Unknown",
    }
}

/// The publisher that the two bytes of a new-license code stand for.
pub open spec fn license_name(high: u8, low: u8) -> Seq<char> {
    if high == 0x0 && low == 0x0 {
        "none"@
    } else if high == 0x0 && low == 0x1 {
        "Nintendo R&D1"@
    } else if high == 0x0 && low == 0x8 {
        "Capcom"@
    } else if high == 0x1 && low == 0x3 {
        "Electronic Arts"@
    } else if high == 0x1 && low == 0x8 {
        "Hudson Soft"@
    } else if high == 0x1 && low == 0x9 {
        "b-ai"@
    } else if high == 0x2 && low == 0x0 {
        "kss"@
    } else if high == 0x2 && low == 0x2 {
        "pow"@
    } else if high == 0x2 && low == 0x4 {
        "PCM Complete"@
    } else if high == 0x2 && low == 0x5 {
        "san-x"@
    } else if high == 0x2 && low == 0x8 {
        "Kemco Japan"@
    } else if high == 0x2 && low == 0x9 {
        "seta"@
    } else if high == 0x3 && low == 0x0 {
        "Viacom"@
    } else if high == 0x3 && low == 0x1 {
        "Nintendo"@
    } else if high == 0x3 && low == 0x2 {
        "Bandai"@
    } else if high == 0x3 && low == 0x3 {
        "Ocean/Acclaim"@
    } else if high == 0x3 && low == 0x4 {
        "Konami"@
    } else if high == 0x3 && low == 0x5 {
        "Hector"@
    } else if high == 0x3 && low == 0x7 {
        "Taito"@
    } else if high == 0x3 && low == 0x8 {
        "Hudson"@
    } else if high == 0x3 && low == 0x9 {
        "Banpresto"@
    } else if high == 0x4 && low == 0x1 {
        "UbiSoft"@
    } else if high == 0x4 && low == 0x2 {
        "Atlus"@
    } else if high == 0x4 && low == 0x4 {
        "Malibu"@
    } else if high == 0x4 && low == 0x6 {
        "angel"@
    } else if high == 0x4 && low == 0x7 {
        "Bullet-Proof"@
    } else if high == 0x4 && low == 0x9 {
        "irem"@
    } else if high == 0x5 && low == 0x0 {
        "Absolute"@
    } else if high == 0x5 && low == 0x1 {
        "Acclaim"@
    } else if high == 0x5 && low == 0x2 {
        "Activision"@
    } else if high == 0x5 && low == 0x3 {
        "American sammy"@
    } else if high == 0x5 && low == 0x4 {
        "Konami"@
    } else if high == 0x5 && low == 0x5 {
        "Hi tech entertainment"@
    } else if high == 0x5 && low == 0x6 {
        "LJN"@
    } else if high == 0x5 && low == 0x7 {
        "Matchbox"@
    } else if high == 0x5 && low == 0x8 {
        "Mattel"@
    } else if high == 0x5 && low == 0x9 {
        "Milton Bradley"@
    } else if high == 0x6 && low == 0x0 {
        "Titus"@
    } else if high == 0x6 && low == 0x1 {
        "Virgin"@
    } else if high == 0x6 && low == 0x4 {
        "LucasArts"@
    } else if high == 0x6 && low == 0x7 {
        "Ocean"@
    } else if high == 0x6 && low == 0x9 {
        "Electronic Arts"@
    } else if high == 0x7 && low == 0x0 {
        "Infogrames"@
    } else if high == 0x7 && low == 0x1 {
        "Interplay"@
    } else if high == 0x7 && low == 0x2 {
        "Broderbund"@
    } else if high == 0x7 && low == 0x3 {
        "sculptured"@
    } else if high == 0x7 && low == 0x5 {
        "sci"@
    } else if high == 0x7 && low == 0x8 {
        "THQ"@
    } else if high == 0x7 && low == 0x9 {
        "Accolade"@
    } else if high == 0x8 && low == 0x0 {
        "misawa"@
    } else if high == 0x8 && low == 0x3 {
        "lozc"@
    } else if high == 0x8 && low == 0x6 {
        "tokuma shoten i*"@
    } else if high == 0x8 && low == 0x7 {
        "tsukuda ori*"@
    } else if high == 0x9 && low == 0x1 {
        "Chunsoft"@
    } else if high == 0x9 && low == 0x2 {
        "Video system"@
    } else if high == 0x9 && low == 0x3 {
        "Ocean/Acclaim"@
    } else if high == 0x9 && low == 0x5 {
        "Varie"@
    } else if high == 0x9 && low == 0x6 {
        "Yonezawa/s'pal"@
    } else if high == 0x9 && low == 0x7 {
        "Kaneko"@
    } else if high == 0x9 && low == 0x9 {
        "Pack in soft"@
    } else if high == 0xA && low == 0x4 {
        "Konami (Yu-Gi-Oh!)"@
    } else {
        "Unknown"@
    }
}

/// Names a new-license code.
pub fn license_for(high: u8, low: u8) -> (name: &'static str)
    ensures
        name@ == license_name(high, low),
{
    match (high, low) {
        (0x0, 0x0) => "none",
        (0x0, 0x1) => "Nintendo R&D1",
        (0x0, 0x8) => "Capcom",
        (0x1, 0x3) => "Electronic Arts",
        (0x1, 0x8) => "Hudson Soft",
        (0x1, 0x9) => "b-ai",
        (0x2, 0x0) => "kss",
        (0x2, 0x2) => "pow",
        (0x2, 0x4) => "PCM Complete",
        (0x2, 0x5) => "san-x",
        (0x2, 0x8) => "Kemco Japan",
        (0x2, 0x9) => "seta",
        (0x3, 0x0) => "Viacom",
        (0x3, 0x1) => "Nintendo",
        (0x3, 0x2) => "Bandai",
        (0x3, 0x3) => "Ocean/Acclaim",
        (0x3, 0x4) => "Konami",
        (0x3, 0x5) => "Hector",
        (0x3, 0x7) => "Taito",
        (0x3, 0x8) => "Hudson",
        (0x3, 0x9) => "Banpresto",
        (0x4, 0x1) => "UbiSoft",
        (0x4, 0x2) => "Atlus",
        (0x4, 0x4) => "Malibu",
        (0x4, 0x6) => "angel",
        (0x4, 0x7) => "Bullet-Proof",
        (0x4, 0x9) => "irem",
        (0x5, 0x0) => "Absolute",
        (0x5, 0x1) => "Acclaim",
        (0x5, 0x2) => "Activision",
        (0x5, 0x3) => "American sammy",
        (0x5, 0x4) => "Konami",
        (0x5, 0x5) => "Hi tech entertainment",
        (0x5, 0x6) => "LJN",
        (0x5, 0x7) => "Matchbox",
        (0x5, 0x8) => "Mattel",
        (0x5, 0x9) => "Milton Bradley",
        (0x6, 0x0) => "Titus",
        (0x6, 0x1) => "Virgin",
        (0x6, 0x4) => "LucasArts",
        (0x6, 0x7) => "Ocean",
        (0x6, 0x9) => "Electronic Arts",
        (0x7, 0x0) => "Infogrames",
        (0x7, 0x1) => "Interplay",
        (0x7, 0x2) => "Broderbund",
        (0x7, 0x3) => "sculptured",
        (0x7, 0x5) => "sci",
        (0x7, 0x8) => "THQ",
        (0x7, 0x9) => "Accolade",
        (0x8, 0x0) => "misawa",
        (0x8, 0x3) => "lozc",
        (0x8, 0x6) => "tokuma shoten i*",
        (0x8, 0x7) => "tsukuda ori*",
        (0x9, 0x1) => "Chunsoft",
        (0x9, 0x2) => "Video system",
        (0x9, 0x3) => "Ocean/Acclaim",
        (0x9, 0x5) => "Varie",
        (0x9, 0x6) => "Yonezawa/s'pal",
        (0x9, 0x7) => "Kaneko",
        (0x9, 0x9) => "Pack in soft",
        (0xA, 0x4) => "Konami (Yu-Gi-Oh!)",
        _ => "Unknown",
    }
}

/// The text that `String::from_utf8_lossy` makes of a byte sequence.
pub uninterp spec fn utf8_lossy(bytes: Seq<u8>) -> Seq<char>;

/// Calls `String::from_utf8_lossy`, which decodes the bytes as UTF-8 and
/// puts the replacement character in place of what is not valid UTF-8. The
/// result is a function of the bytes alone; it is given a name here and
/// nothing more is claimed of it.
#[verifier::external_body]
pub(crate) fn lossy_text(bytes: &[u8]) -> (text: String)
    ensures
        text@ == utf8_lossy(bytes@),
{
    String::from_utf8_lossy(bytes).into_owned()
}

} // verus!
