//! The console: the owner of the bus and, through it, of every device.

use vstd::prelude::*;
use crate::adapter::{CartridgeAdapter, InputAdapter, TimerAdapter, VideoAdapter};
use crate::bus::{seeded, Bus};

verus! {

/// A console: one bus with its four devices.
pub struct Console<C: CartridgeAdapter, V: VideoAdapter, T: TimerAdapter, J: InputAdapter> {
    bus: Bus<C, V, T, J>,
}

impl<C: CartridgeAdapter, V: VideoAdapter, T: TimerAdapter, J: InputAdapter> Console<C, V, T, J> {
    /// The console's bus.
    pub closed spec fn bus_state(&self) -> Bus<C, V, T, J> {
        self.bus
    }

    /// A console in the state that follows the boot program: the store is
    /// seeded and the devices are the given ones.
    pub fn new(game_rom: C, ppu: V, joypad: J, timer: T) -> (console: Self)
        ensures
            forall|address: u16| #[trigger]
                console.bus_state().stored(address) == seeded(address),
            console.bus_state().mirrored(),
            console.bus_state().cartridge_state() == game_rom@,
            console.bus_state().video_state() == ppu@,
            console.bus_state().input_state() == joypad@,
            console.bus_state().timer_state() == timer@,
    {
        Self { bus: Bus::new(game_rom, ppu, joypad, timer) }
    }

    /// The bus, for reading.
    pub fn bus(&self) -> (bus: &Bus<C, V, T, J>)
        ensures
            *bus == self.bus_state(),
    {
        &self.bus
    }

    /// The bus, for the processor's step.
    pub fn bus_mut(&mut self) -> (bus: &mut Bus<C, V, T, J>)
        ensures
            *bus == old(self).bus_state(),
            final(self).bus_state() == *final(bus),
    {
        &mut self.bus
    }
}

} // verus!
