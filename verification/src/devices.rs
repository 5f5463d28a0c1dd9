//! Plain devices: a cartridge without a mapper, video memory without a
//! renderer, a bare divider and a set of button lines. Each implements its
//! adapter interface with ordinary storage and nothing else.

use vstd::prelude::*;
use crate::adapter::{CartridgeAdapter, InputAdapter, TimerAdapter, VideoAdapter};

verus! {

/// Byte that a cartridge read returns where nothing is mapped.
pub const UNMAPPED_BYTE: u8 = 0xFF;

/// Size of video RAM in bytes.
pub const VIDEO_RAM_SIZE: usize = 0x2000;

/// Size of sprite attribute memory in bytes.
pub const SPRITE_TABLE_SIZE: usize = 0xA0;

/// A cartridge that is one read-only image mapped from address 0, with no
/// bank switching and no external RAM.
pub struct RomOnly {
    rom: Vec<u8>,
}

impl View for RomOnly {
    type V = Seq<u8>;

    closed spec fn view(&self) -> Seq<u8> {
        self.rom@
    }
}

impl RomOnly {
    /// A cartridge holding `rom`.
    pub fn new(rom: Vec<u8>) -> (cartridge: Self)
        ensures
            cartridge@ == rom@,
    {
        RomOnly { rom }
    }
}

impl CartridgeAdapter for RomOnly {
    open spec fn byte_at(state: Seq<u8>, address: u16) -> u8 {
        if address < state.len() {
            state[address as int]
        } else {
            UNMAPPED_BYTE
        }
    }

    open spec fn after_write(state: Seq<u8>, address: u16, data: u8) -> Seq<u8> {
        state
    }

    fn read(&self, address: u16) -> (byte: u8) {
        if (address as usize) < self.rom.len() {
            self.rom[address as usize]
        } else {
            UNMAPPED_BYTE
        }
    }

    fn write(&mut self, address: u16, data: u8) {
    }
}

/// The contents of video memory.
pub ghost struct VideoState {
    pub vram: Seq<u8>,
    pub oam: Seq<u8>,
}

/// Video RAM and sprite attribute memory as plain storage.
pub struct VideoMemory {
    vram: [u8; 0x2000],
    oam: [u8; 0xA0],
}

impl View for VideoMemory {
    type V = VideoState;

    closed spec fn view(&self) -> VideoState {
        VideoState { vram: self.vram@, oam: self.oam@ }
    }
}

impl VideoMemory {
    /// Video memory with every byte zero.
    pub fn new() -> (memory: Self)
        ensures
            memory@.vram == Seq::new(VIDEO_RAM_SIZE as nat, |i: int| 0u8),
            memory@.oam == Seq::new(SPRITE_TABLE_SIZE as nat, |i: int| 0u8),
    {
        let memory = VideoMemory { vram: [0x00; 0x2000], oam: [0x00; 0xA0] };
        assert(memory.vram@ =~= Seq::new(VIDEO_RAM_SIZE as nat, |i: int| 0u8));
        assert(memory.oam@ =~= Seq::new(SPRITE_TABLE_SIZE as nat, |i: int| 0u8));
        memory
    }
}

impl VideoMemory {
    /// Video RAM and the sprite table have their fixed sizes in every state.
    pub proof fn lemma_sizes(&self)
        ensures
            self@.vram.len() == VIDEO_RAM_SIZE,
            self@.oam.len() == SPRITE_TABLE_SIZE,
    {
    }
}

impl VideoAdapter for VideoMemory {
    open spec fn vram_at(state: VideoState, address: u16) -> u8 {
        state.vram[address - 0x8000]
    }

    open spec fn oam_at(state: VideoState, address: u16) -> u8 {
        state.oam[address - 0xFE00]
    }

    open spec fn after_write_vram(state: VideoState, address: u16, data: u8) -> VideoState {
        VideoState { vram: state.vram.update(address - 0x8000, data), oam: state.oam }
    }

    open spec fn after_write_oam(state: VideoState, address: u16, data: u8) -> VideoState {
        VideoState { vram: state.vram, oam: state.oam.update(address - 0xFE00, data) }
    }

    fn read_vram(&self, address: u16) -> (byte: u8) {
        self.vram[(address - 0x8000) as usize]
    }

    fn read_oam(&self, address: u16) -> (byte: u8) {
        self.oam[(address - 0xFE00) as usize]
    }

    fn write_vram(&mut self, address: u16, data: u8) {
        self.vram[(address - 0x8000) as usize] = data;
    }

    fn write_oam(&mut self, address: u16, data: u8) {
        self.oam[(address - 0xFE00) as usize] = data;
    }
}

/// A 16-bit counter whose upper byte is the divider register.
pub struct Divider {
    counter: u16,
}

impl View for Divider {
    type V = u16;

    closed spec fn view(&self) -> u16 {
        self.counter
    }
}

impl Divider {
    /// A divider whose counter holds `counter`.
    pub fn new(counter: u16) -> (divider: Self)
        ensures
            divider@ == counter,
    {
        Divider { counter }
    }
}

impl TimerAdapter for Divider {
    open spec fn divider(state: u16) -> u8 {
        (state >> 8) as u8
    }

    open spec fn after_reset(state: u16) -> u16 {
        0
    }

    fn read_divider(&self) -> (byte: u8) {
        let counter: u16 = self.counter;
        proof {
            assert(counter >> 8 <= 0xFF) by (bit_vector);
        }
        (counter >> 8) as u8
    }

    fn reset(&mut self) {
        self.counter = 0;
    }
}

/// Four input lines whose state does not depend on the selection bits.
pub struct Buttons {
    lines: u8,
}

impl View for Buttons {
    type V = u8;

    closed spec fn view(&self) -> u8 {
        self.lines
    }
}

impl Buttons {
    /// Input lines in the state given by the low nibble of `lines`.
    pub fn new(lines: u8) -> (buttons: Self)
        ensures
            buttons@ == lines,
    {
        Buttons { lines }
    }
}

impl InputAdapter for Buttons {
    open spec fn compose(state: u8, selection: u8) -> u8 {
        (selection & 0b1111_0000) | (state & 0b0000_1111)
    }

    fn read(&self, selection: u8) -> (byte: u8) {
        (selection & 0b1111_0000) | (self.lines & 0b0000_1111)
    }
}

} // verus!
