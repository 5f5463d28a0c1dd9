//! Laws of the bus, each proved from the contracts of the read and write
//! paths. A law relates the bus before an access to the bus after it through
//! [`Bus::written`] and [`Bus::force_written`].

use vstd::prelude::*;
use crate::adapter::{CartridgeAdapter, InputAdapter, TimerAdapter, VideoAdapter};
use crate::bus::{high_byte, lemma_split_join, low_byte, next_address, Bus, DMA_LENGTH};
use crate::devices::VideoMemory;
use crate::interrupt::Interrupt;
use crate::region::{
    region_of, Region, DMA_ADDRESS, SPRITE_ATTRIBUTE_TABLE_START, ECHO_OFFSET, INTERRUPT_ENABLE_ADDRESS,
    INTERRUPT_FLAG_ADDRESS, JOYPAD_ADDRESS, LAST_MIRRORED_ADDRESS, LCD_CONTROL_ADDRESS,
    LCD_STATUS_ADDRESS, LCD_Y_ADDRESS, TIMER_DIVIDER_REGISTER_ADDRESS,
};

verus! {

/// Whether `address` is ordinary storage: owned by the bus, outside the
/// interrupt enable register and not one of the registers with a rule of
/// their own.
pub open spec fn plain_storage(address: u16) -> bool {
    &&& region_of(address).bus_owned()
    &&& address != INTERRUPT_ENABLE_ADDRESS
    &&& address != INTERRUPT_FLAG_ADDRESS
    &&& address != JOYPAD_ADDRESS
    &&& address != TIMER_DIVIDER_REGISTER_ADDRESS
    &&& address != LCD_CONTROL_ADDRESS
    &&& address != LCD_STATUS_ADDRESS
    &&& address != LCD_Y_ADDRESS
    &&& address != DMA_ADDRESS
}

/// Echo mirror, from the work RAM side: a write to a work RAM address that
/// has an echo is read back at that address and at its echo.
pub proof fn law_work_ram_write_reaches_echo<
    C: CartridgeAdapter,
    V: VideoAdapter,
    T: TimerAdapter,
    J: InputAdapter,
>(before: Bus<C, V, T, J>, after: Bus<C, V, T, J>, address: u16, data: u8)
    requires
        0xC000 <= address <= LAST_MIRRORED_ADDRESS,
        before.written(&after, address, data),
    ensures
        after.read_value(address) == data,
        after.read_value((address + ECHO_OFFSET) as u16) == data,
{
    let echo = (address + ECHO_OFFSET) as u16;
    assert(after.stored(address) == before.stored_after_write(address, data, address));
    assert(after.stored(echo) == before.stored_after_write(address, data, echo));
}

/// Echo mirror, from the echo side: a write to the echo of a work RAM
/// address is read back at the echo and at the work RAM address.
pub proof fn law_echo_write_reaches_work_ram<
    C: CartridgeAdapter,
    V: VideoAdapter,
    T: TimerAdapter,
    J: InputAdapter,
>(before: Bus<C, V, T, J>, after: Bus<C, V, T, J>, address: u16, data: u8)
    requires
        0xC000 <= address <= LAST_MIRRORED_ADDRESS,
        before.written(&after, (address + ECHO_OFFSET) as u16, data),
    ensures
        after.read_value(address) == data,
        after.read_value((address + ECHO_OFFSET) as u16) == data,
{
    let echo = (address + ECHO_OFFSET) as u16;
    assert(after.stored(address) == before.stored_after_write(echo, data, address));
    assert(after.stored(echo) == before.stored_after_write(echo, data, echo));
}

/// A raw store outside work RAM and its echo keeps the echo mirror.
pub proof fn law_force_write_keeps_mirror<
    C: CartridgeAdapter,
    V: VideoAdapter,
    T: TimerAdapter,
    J: InputAdapter,
>(before: Bus<C, V, T, J>, after: Bus<C, V, T, J>, address: u16, data: u8)
    requires
        before.mirrored(),
        before.force_written(&after, address, data),
        !(0xC000 <= address <= LAST_MIRRORED_ADDRESS),
        region_of(address) != Region::EchoRAM,
    ensures
        after.mirrored(),
{
    assert forall|at: u16| 0xC000 <= at <= LAST_MIRRORED_ADDRESS implies #[trigger] after.stored(
        at,
    ) == after.stored((at + ECHO_OFFSET) as u16) by {
        assert(before.stored(at) == before.stored((at + ECHO_OFFSET) as u16));
    }
}

/// Whatever byte the store holds, both interrupt registers read with bits
/// 5-7 set and bits 0-4 as stored.
pub proof fn law_interrupt_registers_masked<
    C: CartridgeAdapter,
    V: VideoAdapter,
    T: TimerAdapter,
    J: InputAdapter,
>(bus: Bus<C, V, T, J>)
    ensures
        bus.read_value(INTERRUPT_ENABLE_ADDRESS) & 0b1110_0000 == 0b1110_0000,
        bus.read_value(INTERRUPT_FLAG_ADDRESS) & 0b1110_0000 == 0b1110_0000,
        bus.read_value(INTERRUPT_ENABLE_ADDRESS) & 0b0001_1111 == bus.stored(
            INTERRUPT_ENABLE_ADDRESS,
        ) & 0b0001_1111,
        bus.read_value(INTERRUPT_FLAG_ADDRESS) & 0b0001_1111 == bus.stored(INTERRUPT_FLAG_ADDRESS)
            & 0b0001_1111,
{
    let enable = bus.stored(INTERRUPT_ENABLE_ADDRESS);
    let flag = bus.stored(INTERRUPT_FLAG_ADDRESS);
    assert((0xE0u8 | enable) & 0xE0u8 == 0xE0u8 && (0xE0u8 | enable) & 0x1Fu8 == enable & 0x1Fu8)
        by (bit_vector);
    assert((0xE0u8 | flag) & 0xE0u8 == 0xE0u8 && (0xE0u8 | flag) & 0x1Fu8 == flag & 0x1Fu8)
        by (bit_vector);
}

/// A processor write to the scanline register changes no stored byte and
/// no device, so the register reads as before.
pub proof fn law_scanline_write_ignored<
    C: CartridgeAdapter,
    V: VideoAdapter,
    T: TimerAdapter,
    J: InputAdapter,
>(before: Bus<C, V, T, J>, after: Bus<C, V, T, J>, data: u8)
    requires
        before.written(&after, LCD_Y_ADDRESS, data),
    ensures
        after.read_value(LCD_Y_ADDRESS) == before.read_value(LCD_Y_ADDRESS),
        forall|at: u16| #[trigger] after.stored(at) == before.stored(at),
        after.same_devices(&before),
{
    assert forall|at: u16| #[trigger] after.stored(at) == before.stored(at) by {
        assert(after.stored(at) == before.stored_after_write(LCD_Y_ADDRESS, data, at));
    }
}

/// A processor write to the status register replaces bits 3-7 and keeps
/// bits 0-2.
pub proof fn law_status_partial_write<
    C: CartridgeAdapter,
    V: VideoAdapter,
    T: TimerAdapter,
    J: InputAdapter,
>(before: Bus<C, V, T, J>, after: Bus<C, V, T, J>, data: u8)
    requires
        before.written(&after, LCD_STATUS_ADDRESS, data),
    ensures
        after.read_value(LCD_STATUS_ADDRESS) & 0b0000_0111 == before.read_value(LCD_STATUS_ADDRESS)
            & 0b0000_0111,
        after.read_value(LCD_STATUS_ADDRESS) & 0b1111_1000 == data & 0b1111_1000,
{
    let held = before.stored(LCD_STATUS_ADDRESS);
    assert(after.stored(LCD_STATUS_ADDRESS) == before.stored_after_write(
        LCD_STATUS_ADDRESS,
        data,
        LCD_STATUS_ADDRESS,
    ));
    assert(((data & 0xF8u8) | (held & 0x07u8)) & 0x07u8 == held & 0x07u8 && ((data & 0xF8u8) | (
    held & 0x07u8)) & 0xF8u8 == data & 0xF8u8) by (bit_vector);
}

/// A processor write to the input register replaces bits 4-7 of the stored
/// byte and keeps bits 0-3; it leaves the input controller alone, and a read
/// returns what the controller composes from the stored byte.
pub proof fn law_joypad_partial_write<
    C: CartridgeAdapter,
    V: VideoAdapter,
    T: TimerAdapter,
    J: InputAdapter,
>(before: Bus<C, V, T, J>, after: Bus<C, V, T, J>, data: u8)
    requires
        before.written(&after, JOYPAD_ADDRESS, data),
    ensures
        after.stored(JOYPAD_ADDRESS) & 0b1111_0000 == data & 0b1111_0000,
        after.stored(JOYPAD_ADDRESS) & 0b0000_1111 == before.stored(JOYPAD_ADDRESS) & 0b0000_1111,
        after.input_state() == before.input_state(),
        after.read_value(JOYPAD_ADDRESS) == J::compose(
            before.input_state(),
            after.stored(JOYPAD_ADDRESS),
        ),
{
    let held = before.stored(JOYPAD_ADDRESS);
    assert(after.stored(JOYPAD_ADDRESS) == before.stored_after_write(
        JOYPAD_ADDRESS,
        data,
        JOYPAD_ADDRESS,
    ));
    assert(((data & 0xF0u8) | (held & 0x0Fu8)) & 0x0Fu8 == held & 0x0Fu8 && ((data & 0xF0u8) | (
    held & 0x0Fu8)) & 0xF0u8 == data & 0xF0u8) by (bit_vector);
}

/// The bytes of a sprite copy are those the store held before the write
/// that started it, but for the copy register itself, which already holds
/// the written byte.
pub proof fn law_dma_reads_store<
    C: CartridgeAdapter,
    V: VideoAdapter,
    T: TimerAdapter,
    J: InputAdapter,
>(before: Bus<C, V, T, J>, data: u8, index: int)
    requires
        0 <= index < DMA_LENGTH,
    ensures
        data * 0x100 + index != DMA_ADDRESS ==> before.dma_source_byte(data, index)
            == before.stored((data * 0x100 + index) as u16),
        data * 0x100 + index == DMA_ADDRESS ==> before.dma_source_byte(data, index) == data,
{
}

/// With plain video memory, the first `count` bytes of a sprite copy fill
/// the first `count` places of the sprite table in order and leave the rest
/// of video memory as it was.
pub proof fn law_dma_fills_sprite_table<C: CartridgeAdapter, T: TimerAdapter, J: InputAdapter>(
    before: Bus<C, VideoMemory, T, J>,
    data: u8,
    count: nat,
)
    requires
        count <= DMA_LENGTH,
        before.video_state().oam.len() == DMA_LENGTH,
    ensures
        before.video_after_dma(data, count).vram == before.video_state().vram,
        before.video_after_dma(data, count).oam.len() == DMA_LENGTH,
        forall|index: int|
            0 <= index < count ==> #[trigger] before.video_after_dma(data, count).oam[index]
                == before.dma_source_byte(data, index),
        forall|index: int|
            count <= index < DMA_LENGTH ==> #[trigger] before.video_after_dma(
                data,
                count,
            ).oam[index] == before.video_state().oam[index],
    decreases count,
{
    if count > 0 {
        law_dma_fills_sprite_table(before, data, (count - 1) as nat);
        assert((SPRITE_ATTRIBUTE_TABLE_START + count - 1) as u16 - 0xFE00 == count - 1);
    }
}

/// A word written to two addresses of ordinary storage is read back.
pub proof fn law_word_round_trip<
    C: CartridgeAdapter,
    V: VideoAdapter,
    T: TimerAdapter,
    J: InputAdapter,
>(
    before: Bus<C, V, T, J>,
    between: Bus<C, V, T, J>,
    after: Bus<C, V, T, J>,
    address: u16,
    word: u16,
)
    requires
        plain_storage(address),
        plain_storage(next_address(address)),
        before.written(&between, address, low_byte(word)),
        between.written(&after, next_address(address), high_byte(word)),
    ensures
        after.read_word(address) == word,
{
    let next = next_address(address);
    let low = low_byte(word);
    let high = high_byte(word);
    assert(between.stored(address) == before.stored_after_write(address, low, address));
    assert(after.stored(address) == between.stored_after_write(next, high, address));
    assert(after.stored(next) == between.stored_after_write(next, high, next));
    lemma_split_join(word);
}

/// Enabling an interrupt and then flagging it makes it pending.
pub proof fn law_enabled_and_flagged_is_pending<
    C: CartridgeAdapter,
    V: VideoAdapter,
    T: TimerAdapter,
    J: InputAdapter,
>(
    before: Bus<C, V, T, J>,
    enabled: Bus<C, V, T, J>,
    flagged: Bus<C, V, T, J>,
    interrupt: Interrupt,
)
    requires
        before.written(
            &enabled,
            INTERRUPT_ENABLE_ADDRESS,
            interrupt.updated(before.read_value(INTERRUPT_ENABLE_ADDRESS), true),
        ),
        enabled.written(
            &flagged,
            INTERRUPT_FLAG_ADDRESS,
            interrupt.updated(enabled.read_value(INTERRUPT_FLAG_ADDRESS), true),
        ),
    ensures
        flagged.pending(interrupt),
{
    let enable_written = interrupt.updated(before.read_value(INTERRUPT_ENABLE_ADDRESS), true);
    let flag_written = interrupt.updated(enabled.read_value(INTERRUPT_FLAG_ADDRESS), true);
    assert(enabled.stored(INTERRUPT_ENABLE_ADDRESS) == before.stored_after_write(
        INTERRUPT_ENABLE_ADDRESS,
        enable_written,
        INTERRUPT_ENABLE_ADDRESS,
    ));
    assert(flagged.stored(INTERRUPT_ENABLE_ADDRESS) == enabled.stored_after_write(
        INTERRUPT_FLAG_ADDRESS,
        flag_written,
        INTERRUPT_ENABLE_ADDRESS,
    ));
    assert(flagged.stored(INTERRUPT_FLAG_ADDRESS) == enabled.stored_after_write(
        INTERRUPT_FLAG_ADDRESS,
        flag_written,
        INTERRUPT_FLAG_ADDRESS,
    ));
    let e = before.read_value(INTERRUPT_ENABLE_ADDRESS);
    let f = enabled.read_value(INTERRUPT_FLAG_ADDRESS);
    let i = interrupt.index();
    assert(i < 8 ==> ((0xE0u8 | (e | (1u8 << i))) & (0xE0u8 | (f | (1u8 << i)))) & (1u8 << i) != 0)
        by (bit_vector);
}

/// Disabling an interrupt leaves it not pending, whatever its flag.
pub proof fn law_disabled_is_not_pending<
    C: CartridgeAdapter,
    V: VideoAdapter,
    T: TimerAdapter,
    J: InputAdapter,
>(before: Bus<C, V, T, J>, after: Bus<C, V, T, J>, interrupt: Interrupt)
    requires
        before.written(
            &after,
            INTERRUPT_ENABLE_ADDRESS,
            interrupt.updated(before.read_value(INTERRUPT_ENABLE_ADDRESS), false),
        ),
    ensures
        !after.pending(interrupt),
{
    let written = interrupt.updated(before.read_value(INTERRUPT_ENABLE_ADDRESS), false);
    assert(after.stored(INTERRUPT_ENABLE_ADDRESS) == before.stored_after_write(
        INTERRUPT_ENABLE_ADDRESS,
        written,
        INTERRUPT_ENABLE_ADDRESS,
    ));
    let e = before.read_value(INTERRUPT_ENABLE_ADDRESS);
    let f = after.read_value(INTERRUPT_FLAG_ADDRESS);
    let i = interrupt.index();
    assert(i < 5 ==> ((0xE0u8 | (e & !(1u8 << i))) & f) & (1u8 << i) == 0) by (bit_vector);
}

/// Clearing an interrupt's flag leaves it not pending, enabled or not.
pub proof fn law_unflagged_is_not_pending<
    C: CartridgeAdapter,
    V: VideoAdapter,
    T: TimerAdapter,
    J: InputAdapter,
>(before: Bus<C, V, T, J>, after: Bus<C, V, T, J>, interrupt: Interrupt)
    requires
        before.written(
            &after,
            INTERRUPT_FLAG_ADDRESS,
            interrupt.updated(before.read_value(INTERRUPT_FLAG_ADDRESS), false),
        ),
    ensures
        !after.pending(interrupt),
{
    let written = interrupt.updated(before.read_value(INTERRUPT_FLAG_ADDRESS), false);
    assert(after.stored(INTERRUPT_FLAG_ADDRESS) == before.stored_after_write(
        INTERRUPT_FLAG_ADDRESS,
        written,
        INTERRUPT_FLAG_ADDRESS,
    ));
    let e = after.read_value(INTERRUPT_ENABLE_ADDRESS);
    let f = before.read_value(INTERRUPT_FLAG_ADDRESS);
    let i = interrupt.index();
    assert(i < 5 ==> (e & (0xE0u8 | (f & !(1u8 << i)))) & (1u8 << i) == 0) by (bit_vector);
}

/// A processor write to the LCD control register that clears the display
/// bit resets the scanline register to 0 and the status register's bits 0-2
/// to 0.
pub proof fn law_lcd_off_reset<
    C: CartridgeAdapter,
    V: VideoAdapter,
    T: TimerAdapter,
    J: InputAdapter,
>(before: Bus<C, V, T, J>, after: Bus<C, V, T, J>, data: u8)
    requires
        before.written(&after, LCD_CONTROL_ADDRESS, data),
        data & 0b1000_0000 == 0,
    ensures
        after.read_value(LCD_CONTROL_ADDRESS) == data,
        after.read_value(LCD_Y_ADDRESS) == 0,
        after.read_value(LCD_STATUS_ADDRESS) & 0b0000_0111 == 0,
        after.read_value(LCD_STATUS_ADDRESS) & 0b1111_1000 == before.read_value(LCD_STATUS_ADDRESS)
            & 0b1111_1000,
{
    let held = before.stored(LCD_STATUS_ADDRESS);
    assert(after.stored(LCD_CONTROL_ADDRESS) == before.stored_after_write(
        LCD_CONTROL_ADDRESS,
        data,
        LCD_CONTROL_ADDRESS,
    ));
    assert(after.stored(LCD_Y_ADDRESS) == before.stored_after_write(
        LCD_CONTROL_ADDRESS,
        data,
        LCD_Y_ADDRESS,
    ));
    assert(after.stored(LCD_STATUS_ADDRESS) == before.stored_after_write(
        LCD_CONTROL_ADDRESS,
        data,
        LCD_STATUS_ADDRESS,
    ));
    assert((held & 0xF8u8) & 0x07u8 == 0 && (held & 0xF8u8) & 0xF8u8 == held & 0xF8u8)
        by (bit_vector);
}

} // verus!
