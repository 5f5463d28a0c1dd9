//! The address map: every 16-bit address belongs to exactly one region.

use vstd::prelude::*;

verus! {

/// Input selection register.
pub const JOYPAD_ADDRESS: u16 = 0xFF00;
/// Free-running divider register, owned by the timer.
pub const TIMER_DIVIDER_REGISTER_ADDRESS: u16 = 0xFF04;
/// Interrupt flag register.
pub const INTERRUPT_FLAG_ADDRESS: u16 = 0xFF0F;
/// LCD control register; bit 7 switches the display on.
pub const LCD_CONTROL_ADDRESS: u16 = 0xFF40;
/// LCD status register; bits 0-2 hold mode and coincidence.
pub const LCD_STATUS_ADDRESS: u16 = 0xFF41;
/// Current scanline register.
pub const LCD_Y_ADDRESS: u16 = 0xFF44;
/// Writing here starts the copy into sprite attribute memory.
pub const DMA_ADDRESS: u16 = 0xFF46;
/// Interrupt enable register.
pub const INTERRUPT_ENABLE_ADDRESS: u16 = 0xFFFF;
/// First address of sprite attribute memory.
pub const SPRITE_ATTRIBUTE_TABLE_START: u16 = 0xFE00;
/// Distance between a work RAM address and its echo.
pub const ECHO_OFFSET: u16 = 0x2000;
/// Last work RAM address that has an echo.
pub const LAST_MIRRORED_ADDRESS: u16 = 0xDDFF;

/// The regions of the address space.
#[derive(Clone, Copy, Debug, PartialEq, Eq, Structural)]
pub enum Region {
    BankZero,
    BankSwitchable,
    VideoRAM,
    ExternalRAM,
    WorkRAM1,
    WorkRAM2,
    EchoRAM,
    SpriteAttributeTable,
    NotUsable,
    IORegisters,
    HighRAM,
    InterruptEnable,
}

impl Region {
    /// First address of the region.
    pub open spec fn first(self) -> u16 {
        match self {
            Region::BankZero => 0x0000,
            Region::BankSwitchable => 0x4000,
            Region::VideoRAM => 0x8000,
            Region::ExternalRAM => 0xA000,
            Region::WorkRAM1 => 0xC000,
            Region::WorkRAM2 => 0xD000,
            Region::EchoRAM => 0xE000,
            Region::SpriteAttributeTable => 0xFE00,
            Region::NotUsable => 0xFEA0,
            Region::IORegisters => 0xFF00,
            Region::HighRAM => 0xFF80,
            Region::InterruptEnable => 0xFFFF,
        }
    }

    /// Last address of the region (inclusive).
    pub open spec fn last(self) -> u16 {
        match self {
            Region::BankZero => 0x3FFF,
            Region::BankSwitchable => 0x7FFF,
            Region::VideoRAM => 0x9FFF,
            Region::ExternalRAM => 0xBFFF,
            Region::WorkRAM1 => 0xCFFF,
            Region::WorkRAM2 => 0xDFFF,
            Region::EchoRAM => 0xFDFF,
            Region::SpriteAttributeTable => 0xFE9F,
            Region::NotUsable => 0xFEFF,
            Region::IORegisters => 0xFF7F,
            Region::HighRAM => 0xFFFE,
            Region::InterruptEnable => 0xFFFF,
        }
    }

    /// Whether `address` lies within the region's inclusive bounds.
    pub open spec fn contains(self, address: u16) -> bool {
        self.first() <= address <= self.last()
    }

    /// Whether the cartridge is the authoritative owner of the region.
    pub open spec fn cartridge_owned(self) -> bool {
        self == Region::BankZero || self == Region::BankSwitchable || self == Region::ExternalRAM
    }

    /// Whether the video unit is the authoritative owner of the region.
    pub open spec fn video_owned(self) -> bool {
        self == Region::VideoRAM || self == Region::SpriteAttributeTable
    }

    /// Whether the bus's own store is authoritative for the region.
    pub open spec fn bus_owned(self) -> bool {
        !self.cartridge_owned() && !self.video_owned()
    }

    /// Executable form of [`Region::cartridge_owned`].
    pub fn is_cartridge_owned(self) -> (owned: bool)
        ensures
            owned == self.cartridge_owned(),
    {
        match self {
            Region::BankZero | Region::BankSwitchable | Region::ExternalRAM => true,
            _ => false,
        }
    }
}

/// The region that `address` falls in.
pub open spec fn region_of(address: u16) -> Region {
    if address <= 0x3FFF {
        Region::BankZero
    } else if address <= 0x7FFF {
        Region::BankSwitchable
    } else if address <= 0x9FFF {
        Region::VideoRAM
    } else if address <= 0xBFFF {
        Region::ExternalRAM
    } else if address <= 0xCFFF {
        Region::WorkRAM1
    } else if address <= 0xDFFF {
        Region::WorkRAM2
    } else if address <= 0xFDFF {
        Region::EchoRAM
    } else if address <= 0xFE9F {
        Region::SpriteAttributeTable
    } else if address <= 0xFEFF {
        Region::NotUsable
    } else if address <= 0xFF7F {
        Region::IORegisters
    } else if address <= 0xFFFE {
        Region::HighRAM
    } else {
        Region::InterruptEnable
    }
}

/// Maps an address to its region. Total: every address has exactly one
/// region, the only one whose bounds contain it.
pub fn classify(address: u16) -> (region: Region)
    ensures
        region == region_of(address),
        region.contains(address),
        forall|other: Region| other.contains(address) ==> other == region,
{
    match address {
        0x0000..=0x3FFF => Region::BankZero,
        0x4000..=0x7FFF => Region::BankSwitchable,
        0x8000..=0x9FFF => Region::VideoRAM,
        0xA000..=0xBFFF => Region::ExternalRAM,
        0xC000..=0xCFFF => Region::WorkRAM1,
        0xD000..=0xDFFF => Region::WorkRAM2,
        0xE000..=0xFDFF => Region::EchoRAM,
        0xFE00..=0xFE9F => Region::SpriteAttributeTable,
        0xFEA0..=0xFEFF => Region::NotUsable,
        0xFF00..=0xFF7F => Region::IORegisters,
        0xFF80..=0xFFFE => Region::HighRAM,
        0xFFFF => Region::InterruptEnable,
    }
}

/// Every address lies in the region it is mapped to, and in no other.
pub proof fn lemma_region_unique(address: u16, region: Region)
    ensures
        region.contains(address) <==> region == region_of(address),
{
}

} // verus!
