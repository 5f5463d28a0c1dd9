//! The bus: the store of every byte that no device owns, and the dispatch of
//! each processor access to that store or to the owning device.

use vstd::prelude::*;
use crate::adapter::{CartridgeAdapter, InputAdapter, TimerAdapter, VideoAdapter};
use crate::interrupt::{Interrupt, UNUSED_INTERRUPT_BITS};
use crate::region::{
    classify, region_of, Region, DMA_ADDRESS, ECHO_OFFSET, INTERRUPT_ENABLE_ADDRESS,
    INTERRUPT_FLAG_ADDRESS, JOYPAD_ADDRESS, LAST_MIRRORED_ADDRESS, LCD_CONTROL_ADDRESS,
    LCD_STATUS_ADDRESS, LCD_Y_ADDRESS, SPRITE_ATTRIBUTE_TABLE_START,
    TIMER_DIVIDER_REGISTER_ADDRESS,
};

verus! {

/// Number of bytes a sprite copy moves.
pub const DMA_LENGTH: u16 = 160;

/// The address after `address`; the address space wraps around.
pub open spec fn next_address(address: u16) -> u16 {
    if address == 0xFFFF {
        0
    } else {
        (address + 1) as u16
    }
}

/// The 16-bit word with the given high and low bytes.
pub open spec fn word_of(high: u8, low: u8) -> u16 {
    ((high as u16) << 8) | (low as u16)
}

/// Bits 0-7 of `word`.
pub open spec fn low_byte(word: u16) -> u8 {
    (word & 0xFF) as u8
}

/// Bits 8-15 of `word`.
pub open spec fn high_byte(word: u16) -> u8 {
    (word >> 8) as u8
}

/// Joins two bytes into a word, `high` in bits 8-15.
pub fn join_bytes(high: u8, low: u8) -> (word: u16)
    ensures
        word == word_of(high, low),
        word == high * 256 + low,
        low_byte(word) == low,
        high_byte(word) == high,
{
    let word: u16 = ((high as u16) << 8) | (low as u16);
    proof {
        assert((((high as u16) << 8) | (low as u16)) == (high as u16) * 256 + (low as u16))
            by (bit_vector);
        assert(((((high as u16) << 8) | (low as u16)) & 0xFF) as u8 == low) by (bit_vector);
        assert(((((high as u16) << 8) | (low as u16)) >> 8) as u8 == high) by (bit_vector);
    }
    word
}

/// Splitting a word and joining the halves gives the word back.
pub proof fn lemma_split_join(word: u16)
    ensures
        word_of(high_byte(word), low_byte(word)) == word,
{
    assert(((((word >> 8) as u8) as u16) << 8) | (((word & 0xFF) as u8) as u16) == word)
        by (bit_vector);
}

/// The value the store holds at `address` right after construction.
pub open spec fn seeded(address: u16) -> u8 {
    if address == 0xFF00 {
        0xCF
    } else if address == 0xFF02 {
        0x7E
    } else if address == 0xFF04 {
        0x18
    } else if address == 0xFF07 {
        0xF8
    } else if address == 0xFF0F {
        0xE1
    } else if address == 0xFF40 {
        0x91
    } else if address == 0xFF41 {
        0x81
    } else if address == 0xFF44 {
        0x91
    } else if address == 0xFF46 {
        0xFF
    } else if address == 0xFF47 {
        0xFC
    } else {
        0x00
    }
}

/// Whether a write of `data` to the LCD control register, which held `held`,
/// resets the scanline counter and the status mode bits: on every write but
/// one that keeps the display switched on.
pub open spec fn lcd_resets(held: u8, data: u8) -> bool {
    data & 0x80 == 0 || held & 0x80 == 0
}

/// The bus. It owns the store and the four devices.
pub struct Bus<C: CartridgeAdapter, V: VideoAdapter, T: TimerAdapter, J: InputAdapter> {
    data: [u8; 0x10000],
    game_rom: C,
    ppu: V,
    timer: T,
    joypad: J,
}

impl<C: CartridgeAdapter, V: VideoAdapter, T: TimerAdapter, J: InputAdapter> Bus<C, V, T, J> {
    /// The byte the bus's own store holds at `address`.
    pub closed spec fn stored(&self, address: u16) -> u8 {
        self.data@[address as int]
    }

    /// The state of the cartridge.
    pub closed spec fn cartridge_state(&self) -> C::V {
        self.game_rom@
    }

    /// The state of the video unit.
    pub closed spec fn video_state(&self) -> V::V {
        self.ppu@
    }

    /// The state of the timer.
    pub closed spec fn timer_state(&self) -> T::V {
        self.timer@
    }

    /// The state of the input controller.
    pub closed spec fn input_state(&self) -> J::V {
        self.joypad@
    }

    /// Echo mirror: each work RAM byte that has an echo equals its echo.
    pub open spec fn mirrored(&self) -> bool {
        forall|address: u16|
            0xC000 <= address <= LAST_MIRRORED_ADDRESS ==> #[trigger] self.stored(address)
                == self.stored((address + ECHO_OFFSET) as u16)
    }

    /// Whether the four devices of `self` and `other` are in the same state.
    pub open spec fn same_devices(&self, other: &Self) -> bool {
        &&& self.cartridge_state() == other.cartridge_state()
        &&& self.video_state() == other.video_state()
        &&& self.timer_state() == other.timer_state()
        &&& self.input_state() == other.input_state()
    }

    /// What a processor read of `address` returns.
    pub open spec fn read_value(&self, address: u16) -> u8 {
        let region = region_of(address);
        if region.cartridge_owned() {
            C::byte_at(self.cartridge_state(), address)
        } else if address == INTERRUPT_ENABLE_ADDRESS || address == INTERRUPT_FLAG_ADDRESS {
            UNUSED_INTERRUPT_BITS | self.stored(address)
        } else if region == Region::VideoRAM {
            V::vram_at(self.video_state(), address)
        } else if region == Region::SpriteAttributeTable {
            V::oam_at(self.video_state(), address)
        } else if address == JOYPAD_ADDRESS {
            J::compose(self.input_state(), self.stored(address))
        } else if address == TIMER_DIVIDER_REGISTER_ADDRESS {
            T::divider(self.timer_state())
        } else {
            self.stored(address)
        }
    }

    /// What a processor read of the 16-bit word at `address` returns.
    pub open spec fn read_word(&self, address: u16) -> u16 {
        word_of(self.read_value(next_address(address)), self.read_value(address))
    }

    /// The byte the store holds at `at` after a processor write of `data` to
    /// `address`.
    pub open spec fn stored_after_write(&self, address: u16, data: u8, at: u16) -> u8 {
        let region = region_of(address);
        let kept = self.stored(at);
        if region.cartridge_owned() || region.video_owned() {
            kept
        } else if address == TIMER_DIVIDER_REGISTER_ADDRESS || address == LCD_Y_ADDRESS {
            kept
        } else if region == Region::WorkRAM1 || region == Region::WorkRAM2 {
            if at == address || (address <= LAST_MIRRORED_ADDRESS && at == address + ECHO_OFFSET) {
                data
            } else {
                kept
            }
        } else if region == Region::EchoRAM {
            if at == address || at == address - ECHO_OFFSET {
                data
            } else {
                kept
            }
        } else if address == LCD_CONTROL_ADDRESS {
            if at == LCD_CONTROL_ADDRESS {
                data
            } else if at == LCD_Y_ADDRESS && lcd_resets(self.stored(LCD_CONTROL_ADDRESS), data) {
                0
            } else if at == LCD_STATUS_ADDRESS && lcd_resets(
                self.stored(LCD_CONTROL_ADDRESS),
                data,
            ) {
                kept & 0b1111_1000
            } else {
                kept
            }
        } else if address == LCD_STATUS_ADDRESS {
            if at == address {
                (data & 0b1111_1000) | (kept & 0b0000_0111)
            } else {
                kept
            }
        } else if address == JOYPAD_ADDRESS {
            if at == address {
                (data & 0b1111_0000) | (kept & 0b0000_1111)
            } else {
                kept
            }
        } else {
            if at == address {
                data
            } else {
                kept
            }
        }
    }

    /// The byte that the sprite copy started by a write of `data` reads as
    /// its `index`-th: the store's byte at `data * 0x100 + index`, taken after
    /// `data` itself has been stored in the copy register.
    pub open spec fn dma_source_byte(&self, data: u8, index: int) -> u8 {
        self.stored_after_write(DMA_ADDRESS, data, (data * 0x100 + index) as u16)
    }

    /// The video state after the first `count` bytes of the sprite copy
    /// started by a write of `data`: one sprite attribute write per byte, to
    /// ascending addresses from the start of the table.
    pub open spec fn video_after_dma(&self, data: u8, count: nat) -> V::V
        decreases count,
    {
        if count == 0 {
            self.video_state()
        } else {
            V::after_write_oam(
                self.video_after_dma(data, (count - 1) as nat),
                (SPRITE_ATTRIBUTE_TABLE_START + count - 1) as u16,
                self.dma_source_byte(data, count - 1),
            )
        }
    }

    /// The video state after a processor write of `data` to `address`.
    pub open spec fn video_after_write(&self, address: u16, data: u8) -> V::V {
        let region = region_of(address);
        if region == Region::VideoRAM {
            V::after_write_vram(self.video_state(), address, data)
        } else if region == Region::SpriteAttributeTable {
            V::after_write_oam(self.video_state(), address, data)
        } else if address == DMA_ADDRESS {
            self.video_after_dma(data, DMA_LENGTH as nat)
        } else {
            self.video_state()
        }
    }

    /// The cartridge state after a processor write of `data` to `address`.
    pub open spec fn cartridge_after_write(&self, address: u16, data: u8) -> C::V {
        if region_of(address).cartridge_owned() {
            C::after_write(self.cartridge_state(), address, data)
        } else {
            self.cartridge_state()
        }
    }

    /// The timer state after a processor write to `address`.
    pub open spec fn timer_after_write(&self, address: u16) -> T::V {
        if address == TIMER_DIVIDER_REGISTER_ADDRESS {
            T::after_reset(self.timer_state())
        } else {
            self.timer_state()
        }
    }

    /// Whether `after` is the bus that a processor write of `data` to
    /// `address` makes of `self`.
    pub open spec fn written(&self, after: &Self, address: u16, data: u8) -> bool {
        &&& forall|at: u16| #[trigger]
            after.stored(at) == self.stored_after_write(address, data, at)
        &&& after.cartridge_state() == self.cartridge_after_write(address, data)
        &&& after.video_state() == self.video_after_write(address, data)
        &&& after.timer_state() == self.timer_after_write(address)
        &&& after.input_state() == self.input_state()
    }

    /// Whether `after` is the bus that a raw store of `data` at `address`
    /// makes of `self`.
    pub open spec fn force_written(&self, after: &Self, address: u16, data: u8) -> bool {
        &&& forall|at: u16| #[trigger]
            after.stored(at) == if at == address {
                data
            } else {
                self.stored(at)
            }
        &&& after.same_devices(self)
    }

    /// A bus around the four devices, its store seeded with the register
    /// values the hardware holds when the boot program has ended.
    pub fn new(game_rom: C, ppu: V, joypad: J, timer: T) -> (bus: Self)
        ensures
            forall|address: u16| #[trigger] bus.stored(address) == seeded(address),
            bus.mirrored(),
            bus.cartridge_state() == game_rom@,
            bus.video_state() == ppu@,
            bus.input_state() == joypad@,
            bus.timer_state() == timer@,
    {
        let mut data: [u8; 0x10000] = [0x00; 0x10000];
        data[0xFF00] = 0xCF;
        data[0xFF01] = 0x00;
        data[0xFF02] = 0x7E;
        data[0xFF04] = 0x18;
        data[0xFF05] = 0x00;
        data[0xFF06] = 0x00;
        data[0xFF07] = 0xF8;
        data[0xFF0F] = 0xE1;
        data[0xFF40] = 0x91;
        data[0xFF41] = 0x81;
        data[0xFF42] = 0x00;
        data[0xFF43] = 0x00;
        data[0xFF44] = 0x91;
        data[0xFF45] = 0x00;
        data[0xFF46] = 0xFF;
        data[0xFF47] = 0xFC;
        data[0xFF4A] = 0x00;
        data[0xFF4B] = 0x00;
        data[0xFFFF] = 0x00;
        Self { data, game_rom, ppu, timer, joypad }
    }

    /// The cartridge.
    pub fn game_rom(&self) -> (cartridge: &C)
        ensures
            cartridge@ == self.cartridge_state(),
    {
        &self.game_rom
    }

    /// The video unit.
    pub fn ppu(&self) -> (video: &V)
        ensures
            video@ == self.video_state(),
    {
        &self.ppu
    }

    /// The timer.
    pub fn timer(&self) -> (timer: &T)
        ensures
            timer@ == self.timer_state(),
    {
        &self.timer
    }

    /// The input controller.
    pub fn joypad(&self) -> (input: &J)
        ensures
            input@ == self.input_state(),
    {
        &self.joypad
    }

    /// The video unit, for whoever advances it between processor steps.
    pub fn ppu_mut(&mut self) -> (video: &mut V)
        ensures
            video@ == old(self).video_state(),
            final(self).video_state() == final(video)@,
            forall|at: u16| #[trigger] final(self).stored(at) == old(self).stored(at),
            final(self).cartridge_state() == old(self).cartridge_state(),
            final(self).timer_state() == old(self).timer_state(),
            final(self).input_state() == old(self).input_state(),
    {
        &mut self.ppu
    }

    /// The timer, for whoever advances it between processor steps.
    pub fn timer_mut(&mut self) -> (timer: &mut T)
        ensures
            timer@ == old(self).timer_state(),
            final(self).timer_state() == final(timer)@,
            forall|at: u16| #[trigger] final(self).stored(at) == old(self).stored(at),
            final(self).cartridge_state() == old(self).cartridge_state(),
            final(self).video_state() == old(self).video_state(),
            final(self).input_state() == old(self).input_state(),
    {
        &mut self.timer
    }

    /// The input controller, for whoever samples the buttons.
    pub fn joypad_mut(&mut self) -> (input: &mut J)
        ensures
            input@ == old(self).input_state(),
            final(self).input_state() == final(input)@,
            forall|at: u16| #[trigger] final(self).stored(at) == old(self).stored(at),
            final(self).cartridge_state() == old(self).cartridge_state(),
            final(self).video_state() == old(self).video_state(),
            final(self).timer_state() == old(self).timer_state(),
    {
        &mut self.joypad
    }

    /// The byte the store holds at `address`, with no dispatch and no mask.
    pub fn peek(&self, address: u16) -> (byte: u8)
        ensures
            byte == self.stored(address),
    {
        self.data[address as usize]
    }

    /// A processor read.
    pub fn read(&self, address: u16) -> (byte: u8)
        ensures
            byte == self.read_value(address),
            address == INTERRUPT_ENABLE_ADDRESS || address == INTERRUPT_FLAG_ADDRESS ==> byte
                & UNUSED_INTERRUPT_BITS == UNUSED_INTERRUPT_BITS && byte & 0b0001_1111
                == self.stored(address) & 0b0001_1111,
    {
        let region = classify(address);
        if region.is_cartridge_owned() {
            self.game_rom.read(address)
        } else if address == INTERRUPT_ENABLE_ADDRESS || address == INTERRUPT_FLAG_ADDRESS {
            let held: u8 = self.data[address as usize];
            proof {
                assert((0xE0u8 | held) & 0xE0u8 == 0xE0u8) by (bit_vector);
                assert((0xE0u8 | held) & 0x1Fu8 == held & 0x1Fu8) by (bit_vector);
            }
            UNUSED_INTERRUPT_BITS | held
        } else if region == Region::VideoRAM {
            self.ppu.read_vram(address)
        } else if region == Region::SpriteAttributeTable {
            self.ppu.read_oam(address)
        } else if address == JOYPAD_ADDRESS {
            self.joypad.read(self.data[address as usize])
        } else if address == TIMER_DIVIDER_REGISTER_ADDRESS {
            self.timer.read_divider()
        } else {
            self.data[address as usize]
        }
    }

    /// A processor read of a little-endian word: the low byte at `address`,
    /// the high byte at the address after it.
    pub fn read_16bit(&self, address: u16) -> (word: u16)
        ensures
            word == self.read_word(address),
            word == self.read_value(next_address(address)) * 256 + self.read_value(address),
    {
        join_bytes(self.read(address.wrapping_add(1)), self.read(address))
    }

    /// A raw store that bypasses every rule of the write path.
    pub fn force_write(&mut self, address: u16, data: u8)
        ensures
            old(self).force_written(final(self), address, data),
    {
        self.data[address as usize] = data;
    }

    /// A processor write.
    pub fn write(&mut self, address: u16, data: u8)
        ensures
            old(self).written(final(self), address, data),
            old(self).mirrored() ==> final(self).mirrored(),
    {
        let ghost before = *self;
        let region = classify(address);
        if region.is_cartridge_owned() {
            self.game_rom.write(address, data);
        } else if region == Region::WorkRAM1 || region == Region::WorkRAM2 {
            self.data[address as usize] = data;
            if address <= LAST_MIRRORED_ADDRESS {
                self.data[(address + ECHO_OFFSET) as usize] = data;
            }
        } else if region == Region::EchoRAM {
            self.data[address as usize] = data;
            self.data[(address - ECHO_OFFSET) as usize] = data;
        } else if address == TIMER_DIVIDER_REGISTER_ADDRESS {
            self.timer.reset();
        } else if address == LCD_CONTROL_ADDRESS {
            let held: u8 = self.data[address as usize];
            self.data[address as usize] = data;
            if data & 0x80 == 0 || held & 0x80 == 0 {
                self.data[LCD_Y_ADDRESS as usize] = 0x00;
                let status: u8 = self.data[LCD_STATUS_ADDRESS as usize];
                self.data[LCD_STATUS_ADDRESS as usize] = status & 0b1111_1000;
            }
        } else if address == LCD_Y_ADDRESS {
            // Only the video unit moves the scanline counter, by a raw store.
        } else if address == LCD_STATUS_ADDRESS {
            let held: u8 = self.data[address as usize];
            self.data[address as usize] = (data & 0b1111_1000) | (held & 0b0000_0111);
        } else if address == JOYPAD_ADDRESS {
            let held: u8 = self.data[address as usize];
            self.data[address as usize] = (data & 0b1111_0000) | (held & 0b0000_1111);
        } else if region == Region::VideoRAM {
            self.ppu.write_vram(address, data);
        } else if region == Region::SpriteAttributeTable {
            self.ppu.write_oam(address, data);
        } else if address == DMA_ADDRESS {
            self.data[address as usize] = data;
            let ghost started = *self;
            let source: u16 = (data as u16) * 0x100;
            let mut count: u16 = 0;
            while count < DMA_LENGTH
                invariant
                    count <= DMA_LENGTH,
                    source == data * 0x100,
                    address == DMA_ADDRESS,
                    self.data == started.data,
                    forall|at: u16| #[trigger]
                        started.stored(at) == before.stored_after_write(address, data, at),
                    self.video_state() == before.video_after_dma(data, count as nat),
                    self.cartridge_state() == before.cartridge_state(),
                    self.timer_state() == before.timer_state(),
                    self.input_state() == before.input_state(),
                decreases DMA_LENGTH - count,
            {
                let byte: u8 = self.data[(source + count) as usize];
                assert(byte == started.stored((source + count) as u16));
                self.ppu.write_oam(SPRITE_ATTRIBUTE_TABLE_START + count, byte);
                count += 1;
            }
        } else {
            self.data[address as usize] = data;
        }
        proof {
            assert forall|at: u16| #[trigger]
                self.stored(at) == before.stored_after_write(address, data, at) by {
                if address == DMA_ADDRESS {
                    assert(self.data@[at as int] == before.stored_after_write(address, data, at));
                }
            }
            if before.mirrored() {
                before.lemma_write_keeps_mirror(self, address, data);
            }
        }
    }

    /// A processor write keeps the echo mirror.
    pub proof fn lemma_write_keeps_mirror(&self, after: &Self, address: u16, data: u8)
        requires
            self.written(after, address, data),
            self.mirrored(),
        ensures
            after.mirrored(),
    {
        assert forall|at: u16| 0xC000 <= at <= LAST_MIRRORED_ADDRESS implies #[trigger] after.stored(
            at,
        ) == after.stored((at + ECHO_OFFSET) as u16) by {
            let echo = (at + ECHO_OFFSET) as u16;
            assert(self.stored(at) == self.stored(echo));
            assert(after.stored(at) == self.stored_after_write(address, data, at));
            assert(after.stored(echo) == self.stored_after_write(address, data, echo));
        }
    }

    /// A processor write of a little-endian word: the low byte to `address`,
    /// then the high byte to the address after it, each with all the effects
    /// of a byte write.
    pub fn write_16bit(&mut self, address: u16, data: u16)
        ensures
            exists|between: Self|
                (#[trigger] old(self).written(&between, address, low_byte(data)))
                    && between.written(final(self), next_address(address), high_byte(data)),
            old(self).mirrored() ==> final(self).mirrored(),
    {
        let ghost before = *self;
        proof {
            assert(data & 0xFF <= 0xFF && data >> 8 <= 0xFF) by (bit_vector);
        }
        let low: u8 = (data & 0xFF) as u8;
        let high: u8 = (data >> 8) as u8;
        self.write(address, low);
        let ghost between = *self;
        self.write(address.wrapping_add(1), high);
        assert(before.written(&between, address, low_byte(data)) && between.written(
            self,
            next_address(address),
            high_byte(data),
        ));
    }

    /// Sets or clears `interrupt`'s bit in the flag register, through the
    /// processor's read and write.
    pub fn set_interrupt_flag(&mut self, interrupt: Interrupt, val: bool)
        ensures
            old(self).written(
                final(self),
                INTERRUPT_FLAG_ADDRESS,
                interrupt.updated(old(self).read_value(INTERRUPT_FLAG_ADDRESS), val),
            ),
            old(self).mirrored() ==> final(self).mirrored(),
    {
        let byte: u8 = self.read(INTERRUPT_FLAG_ADDRESS);
        self.write(INTERRUPT_FLAG_ADDRESS, interrupt.set(byte, val));
    }

    /// Sets or clears `interrupt`'s bit in the enable register, through the
    /// processor's read and write.
    pub fn set_interrupt_enable(&mut self, interrupt: Interrupt, val: bool)
        ensures
            old(self).written(
                final(self),
                INTERRUPT_ENABLE_ADDRESS,
                interrupt.updated(old(self).read_value(INTERRUPT_ENABLE_ADDRESS), val),
            ),
            old(self).mirrored() ==> final(self).mirrored(),
    {
        let byte: u8 = self.read(INTERRUPT_ENABLE_ADDRESS);
        self.write(INTERRUPT_ENABLE_ADDRESS, interrupt.set(byte, val));
    }

    /// Whether `interrupt` is pending in this state: enabled and flagged.
    pub open spec fn pending(&self, interrupt: Interrupt) -> bool {
        interrupt.is_set(
            self.read_value(INTERRUPT_ENABLE_ADDRESS) & self.read_value(INTERRUPT_FLAG_ADDRESS),
        )
    }

    /// Whether `interrupt` is both enabled and flagged.
    pub fn interrupt_pending(&self, interrupt: Interrupt) -> (pending: bool)
        ensures
            pending == self.pending(interrupt),
    {
        let enabled: u8 = self.read(INTERRUPT_ENABLE_ADDRESS);
        let flagged: u8 = self.read(INTERRUPT_FLAG_ADDRESS);
        interrupt.get(enabled & flagged)
    }
}

} // verus!
