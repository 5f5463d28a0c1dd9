//! The interfaces of the devices behind the bus. Each device is described by
//! an abstract state (its view) and by spec functions that say what a read
//! returns in a state and which state follows a write.

use vstd::prelude::*;
use crate::region::{region_of, Region};

verus! {

/// The cartridge: owner of both ROM banks and of external RAM.
pub trait CartridgeAdapter: View {
    /// The byte a read of `address` returns in `state`.
    spec fn byte_at(state: Self::V, address: u16) -> u8;

    /// The state that follows a write of `data` to `address`.
    spec fn after_write(state: Self::V, address: u16, data: u8) -> Self::V;

    fn read(&self, address: u16) -> (byte: u8)
        requires
            region_of(address).cartridge_owned(),
        ensures
            byte == Self::byte_at(self@, address),
    ;

    fn write(&mut self, address: u16, data: u8)
        requires
            region_of(address).cartridge_owned(),
        ensures
            final(self)@ == Self::after_write(old(self)@, address, data),
    ;
}

/// The video unit: owner of video RAM and of sprite attribute memory.
pub trait VideoAdapter: View {
    /// The byte a video RAM read of `address` returns in `state`.
    spec fn vram_at(state: Self::V, address: u16) -> u8;

    /// The byte a sprite attribute read of `address` returns in `state`.
    spec fn oam_at(state: Self::V, address: u16) -> u8;

    /// The state that follows a video RAM write.
    spec fn after_write_vram(state: Self::V, address: u16, data: u8) -> Self::V;

    /// The state that follows a sprite attribute write.
    spec fn after_write_oam(state: Self::V, address: u16, data: u8) -> Self::V;

    fn read_vram(&self, address: u16) -> (byte: u8)
        requires
            region_of(address) == Region::VideoRAM,
        ensures
            byte == Self::vram_at(self@, address),
    ;

    fn read_oam(&self, address: u16) -> (byte: u8)
        requires
            region_of(address) == Region::SpriteAttributeTable,
        ensures
            byte == Self::oam_at(self@, address),
    ;

    fn write_vram(&mut self, address: u16, data: u8)
        requires
            region_of(address) == Region::VideoRAM,
        ensures
            final(self)@ == Self::after_write_vram(old(self)@, address, data),
    ;

    fn write_oam(&mut self, address: u16, data: u8)
        requires
            region_of(address) == Region::SpriteAttributeTable,
        ensures
            final(self)@ == Self::after_write_oam(old(self)@, address, data),
    ;
}

/// The timer: owner of the free-running divider.
pub trait TimerAdapter: View {
    /// The divider byte visible in `state`.
    spec fn divider(state: Self::V) -> u8;

    /// The state that follows a reset of the divider.
    spec fn after_reset(state: Self::V) -> Self::V;

    fn read_divider(&self) -> (byte: u8)
        ensures
            byte == Self::divider(self@),
    ;

    fn reset(&mut self)
        ensures
            final(self)@ == Self::after_reset(old(self)@),
    ;
}

/// The input controller: owner of the live button state.
pub trait InputAdapter: View {
    /// The byte a read returns in `state` when the bus holds `selection` in
    /// the input register.
    spec fn compose(state: Self::V, selection: u8) -> u8;

    fn read(&self, selection: u8) -> (byte: u8)
        ensures
            byte == Self::compose(self@, selection),
    ;
}

} // verus!
