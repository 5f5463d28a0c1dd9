use console_bus::adapter::{CartridgeAdapter, InputAdapter, TimerAdapter, VideoAdapter};
use console_bus::bus::{join_bytes, Bus};
use console_bus::console::Console;
use console_bus::devices::{Buttons, Divider, RomOnly, VideoMemory};
use console_bus::interrupt::Interrupt;
use console_bus::region::{classify, Region};

type TestBus = Bus<RomOnly, VideoMemory, Divider, Buttons>;

fn bus_with(rom: Vec<u8>, lines: u8, counter: u16) -> TestBus {
    Bus::new(RomOnly::new(rom), VideoMemory::new(), Buttons::new(lines), Divider::new(counter))
}

fn fresh() -> TestBus {
    bus_with(vec![0x31, 0xFE, 0xFF, 0xAF], 0x0F, 0xAB12)
}

#[test]
fn classify_region_bounds() {
    let bounds: [(u16, u16, Region); 12] = [
        (0x0000, 0x3FFF, Region::BankZero),
        (0x4000, 0x7FFF, Region::BankSwitchable),
        (0x8000, 0x9FFF, Region::VideoRAM),
        (0xA000, 0xBFFF, Region::ExternalRAM),
        (0xC000, 0xCFFF, Region::WorkRAM1),
        (0xD000, 0xDFFF, Region::WorkRAM2),
        (0xE000, 0xFDFF, Region::EchoRAM),
        (0xFE00, 0xFE9F, Region::SpriteAttributeTable),
        (0xFEA0, 0xFEFF, Region::NotUsable),
        (0xFF00, 0xFF7F, Region::IORegisters),
        (0xFF80, 0xFFFE, Region::HighRAM),
        (0xFFFF, 0xFFFF, Region::InterruptEnable),
    ];
    for (first, last, region) in bounds {
        assert_eq!(classify(first), region);
        assert_eq!(classify(last), region);
        assert_eq!(classify(first + (last - first) / 2), region);
    }
    assert_eq!(classify(0xFF0F), Region::IORegisters);
}

#[test]
fn classify_covers_every_address() {
    let mut previous = classify(0);
    let mut changes = 0;
    for address in 1..=0xFFFFu16 {
        let region = classify(address);
        if region != previous {
            changes += 1;
            previous = region;
        }
    }
    assert_eq!(changes, 11);
}

#[test]
fn region_cartridge_ownership() {
    assert!(Region::BankZero.is_cartridge_owned());
    assert!(Region::BankSwitchable.is_cartridge_owned());
    assert!(Region::ExternalRAM.is_cartridge_owned());
    assert!(!Region::VideoRAM.is_cartridge_owned());
    assert!(!Region::WorkRAM1.is_cartridge_owned());
    assert!(!Region::InterruptEnable.is_cartridge_owned());
}

#[test]
fn new_seeds_registers() {
    let bus = fresh();
    let seeded: [(u16, u8); 19] = [
        (0xFF00, 0xCF),
        (0xFF01, 0x00),
        (0xFF02, 0x7E),
        (0xFF04, 0x18),
        (0xFF05, 0x00),
        (0xFF06, 0x00),
        (0xFF07, 0xF8),
        (0xFF0F, 0xE1),
        (0xFF40, 0x91),
        (0xFF41, 0x81),
        (0xFF42, 0x00),
        (0xFF43, 0x00),
        (0xFF44, 0x91),
        (0xFF45, 0x00),
        (0xFF46, 0xFF),
        (0xFF47, 0xFC),
        (0xFF4A, 0x00),
        (0xFF4B, 0x00),
        (0xFFFF, 0x00),
    ];
    for (address, value) in seeded {
        assert_eq!(bus.peek(address), value);
    }
    let mut nonzero = 0;
    for address in 0..=0xFFFFu16 {
        if bus.peek(address) != 0 {
            nonzero += 1;
        }
    }
    assert_eq!(nonzero, 10);
}

#[test]
fn read_forwards_to_cartridge() {
    let bus = fresh();
    assert_eq!(bus.read(0x0000), 0x31);
    assert_eq!(bus.read(0x0003), 0xAF);
    assert_eq!(bus.read(0x0004), 0xFF);
    assert_eq!(bus.read(0x4000), 0xFF);
    assert_eq!(bus.read(0xA000), 0xFF);
    assert_eq!(bus.peek(0x0000), 0x00);
}

#[test]
fn write_to_cartridge_leaves_store_alone() {
    let mut bus = fresh();
    bus.write(0x0001, 0x77);
    bus.write(0x4000, 0x78);
    bus.write(0xBFFF, 0x79);
    assert_eq!(bus.peek(0x0001), 0x00);
    assert_eq!(bus.peek(0x4000), 0x00);
    assert_eq!(bus.peek(0xBFFF), 0x00);
    assert_eq!(bus.read(0x0001), 0xFE);
}

#[test]
fn echo_mirror_from_work_ram() {
    let mut bus = fresh();
    bus.write(0xC000, 0x11);
    bus.write(0xCFFF, 0x22);
    bus.write(0xD000, 0x33);
    bus.write(0xDDFF, 0x44);
    assert_eq!(bus.read(0xE000), 0x11);
    assert_eq!(bus.read(0xEFFF), 0x22);
    assert_eq!(bus.read(0xF000), 0x33);
    assert_eq!(bus.read(0xFDFF), 0x44);
    assert_eq!(bus.read(0xC000), 0x11);
    assert_eq!(bus.read(0xDDFF), 0x44);
}

#[test]
fn echo_mirror_from_echo() {
    let mut bus = fresh();
    bus.write(0xE000, 0x55);
    bus.write(0xFDFF, 0x66);
    assert_eq!(bus.read(0xC000), 0x55);
    assert_eq!(bus.read(0xDDFF), 0x66);
    assert_eq!(bus.read(0xE000), 0x55);
    assert_eq!(bus.read(0xFDFF), 0x66);
}

#[test]
fn work_ram_tail_has_no_echo() {
    let mut bus = fresh();
    bus.write(0xDE00, 0x77);
    bus.write(0xDFFF, 0x78);
    assert_eq!(bus.read(0xDE00), 0x77);
    assert_eq!(bus.read(0xDFFF), 0x78);
    assert_eq!(bus.read(0xFE00), 0x00);
    assert_eq!(bus.peek(0xFE00), 0x00);
    assert_eq!(bus.peek(0xFFFF), 0x00);
}

#[test]
fn interrupt_registers_read_masked() {
    let mut bus = fresh();
    assert_eq!(bus.read(0xFFFF), 0xE0);
    assert_eq!(bus.read(0xFF0F), 0xE1);
    bus.force_write(0xFF0F, 0x00);
    assert_eq!(bus.read(0xFF0F), 0xE0);
    bus.write(0xFFFF, 0x05);
    assert_eq!(bus.peek(0xFFFF), 0x05);
    assert_eq!(bus.read(0xFFFF), 0xE5);
    for stored in 0..=0xFFu8 {
        bus.force_write(0xFFFF, stored);
        bus.force_write(0xFF0F, stored);
        assert_eq!(bus.read(0xFFFF) & 0xE0, 0xE0);
        assert_eq!(bus.read(0xFF0F) & 0xE0, 0xE0);
        assert_eq!(bus.read(0xFFFF) & 0x1F, stored & 0x1F);
    }
}

#[test]
fn scanline_write_is_ignored() {
    let mut bus = fresh();
    bus.write(0xFF44, 0x12);
    assert_eq!(bus.read(0xFF44), 0x91);
    bus.force_write(0xFF44, 0x42);
    assert_eq!(bus.read(0xFF44), 0x42);
    for data in 0..=0xFFu8 {
        bus.write(0xFF44, data);
        assert_eq!(bus.read(0xFF44), 0x42);
    }
}

#[test]
fn status_write_keeps_low_bits() {
    let mut bus = fresh();
    bus.write(0xFF41, 0xFF);
    assert_eq!(bus.read(0xFF41), 0xF9);
    assert_eq!(bus.read(0xFF41) & 0b0000_0111, 0x01);
    assert_eq!(bus.read(0xFF41) >> 3, 0b11111);
    bus.force_write(0xFF41, 0x06);
    bus.write(0xFF41, 0x09);
    assert_eq!(bus.read(0xFF41), 0x0E);
}

#[test]
fn joypad_write_keeps_low_nibble() {
    let mut bus = bus_with(vec![], 0x0A, 0);
    assert_eq!(bus.read(0xFF00), 0xCA);
    bus.write(0xFF00, 0xF0);
    assert_eq!(bus.peek(0xFF00) & 0xF0, 0xF0);
    assert_eq!(bus.peek(0xFF00), 0xFF);
    assert_eq!(bus.read(0xFF00), 0xFA);
    bus.write(0xFF00, 0x25);
    assert_eq!(bus.peek(0xFF00), 0x2F);
    assert_eq!(bus.read(0xFF00), 0x2A);
}

#[test]
fn joypad_read_follows_live_state() {
    let mut bus = bus_with(vec![], 0x0F, 0);
    bus.write(0xFF00, 0x10);
    assert_eq!(bus.read(0xFF00), 0x1F);
    *bus.joypad_mut() = Buttons::new(0x03);
    assert_eq!(bus.read(0xFF00), 0x13);
    assert_eq!(bus.joypad().read(0x20), 0x23);
}

#[test]
fn divider_read_and_reset() {
    let mut bus = fresh();
    assert_eq!(bus.read(0xFF04), 0xAB);
    bus.write(0xFF04, 0x55);
    assert_eq!(bus.read(0xFF04), 0x00);
    assert_eq!(bus.peek(0xFF04), 0x18);
    *bus.timer_mut() = Divider::new(0x0300);
    assert_eq!(bus.read(0xFF04), 0x03);
    assert_eq!(bus.timer().read_divider(), 0x03);
}

#[test]
fn lcd_off_resets_scanline_and_mode() {
    let mut bus = fresh();
    bus.force_write(0xFF41, 0x87);
    bus.write(0xFF40, 0x00);
    assert_eq!(bus.read(0xFF40), 0x00);
    assert_eq!(bus.read(0xFF44), 0x00);
    assert_eq!(bus.read(0xFF41) & 0b0000_0111, 0x00);
    assert_eq!(bus.read(0xFF41), 0x80);
}

#[test]
fn lcd_staying_on_resets_nothing() {
    let mut bus = fresh();
    bus.force_write(0xFF41, 0x83);
    bus.write(0xFF40, 0x81);
    assert_eq!(bus.read(0xFF40), 0x81);
    assert_eq!(bus.read(0xFF44), 0x91);
    assert_eq!(bus.read(0xFF41), 0x83);
}

#[test]
fn lcd_switching_on_resets() {
    let mut bus = fresh();
    bus.write(0xFF40, 0x11);
    bus.force_write(0xFF44, 0x05);
    bus.force_write(0xFF41, 0x86);
    bus.write(0xFF40, 0x91);
    assert_eq!(bus.read(0xFF40), 0x91);
    assert_eq!(bus.read(0xFF44), 0x00);
    assert_eq!(bus.read(0xFF41), 0x80);
}

#[test]
fn video_ram_is_forwarded() {
    let mut bus = fresh();
    bus.write(0x8000, 0x12);
    bus.write(0x9FFF, 0x34);
    assert_eq!(bus.read(0x8000), 0x12);
    assert_eq!(bus.read(0x9FFF), 0x34);
    assert_eq!(bus.peek(0x8000), 0x00);
    assert_eq!(bus.ppu().read_vram(0x8000), 0x12);
    bus.ppu_mut().write_vram(0x8001, 0x56);
    assert_eq!(bus.read(0x8001), 0x56);
}

#[test]
fn sprite_table_is_forwarded() {
    let mut bus = fresh();
    bus.write(0xFE00, 0x12);
    bus.write(0xFE9F, 0x34);
    assert_eq!(bus.read(0xFE00), 0x12);
    assert_eq!(bus.read(0xFE9F), 0x34);
    assert_eq!(bus.peek(0xFE00), 0x00);
    assert_eq!(bus.ppu().read_oam(0xFE9F), 0x34);
}

#[test]
fn not_usable_is_plain_storage() {
    let mut bus = fresh();
    bus.write(0xFEA0, 0x12);
    bus.write(0xFEFF, 0x34);
    assert_eq!(bus.read(0xFEA0), 0x12);
    assert_eq!(bus.read(0xFEFF), 0x34);
}

#[test]
fn dma_copies_160_bytes_from_store() {
    let mut bus = fresh();
    for index in 0..0x100u16 {
        bus.force_write(0x0400 + index, (index as u8).wrapping_mul(3).wrapping_add(1));
    }
    bus.write(0xFE00, 0xEE);
    bus.write(0xFF46, 0x04);
    assert_eq!(bus.peek(0xFF46), 0x04);
    assert_eq!(bus.read(0xFF46), 0x04);
    for index in 0..160u16 {
        assert_eq!(bus.read(0xFE00 + index), bus.peek(0x0400 + index));
        assert_eq!(bus.read(0xFE00 + index), (index as u8).wrapping_mul(3).wrapping_add(1));
    }
    assert_eq!(bus.read(0xFE00), 0x01);
    assert_eq!(bus.read(0xFE9F), 0xDE);
}

#[test]
fn dma_from_work_ram() {
    let mut bus = fresh();
    for index in 0..160u16 {
        bus.write(0xC100 + index, 0xFF - (index as u8));
    }
    bus.write(0xC100 + 160, 0x99);
    bus.write(0xFF46, 0xC1);
    for index in 0..160u16 {
        assert_eq!(bus.read(0xFE00 + index), 0xFF - (index as u8));
    }
    assert_eq!(bus.read(0xC100), 0xFF);
}

#[test]
fn dma_from_registers_sees_written_byte() {
    let mut bus = fresh();
    bus.force_write(0xFF46, 0x00);
    bus.write(0xFF46, 0xFF);
    assert_eq!(bus.read(0xFE00), 0xCF);
    assert_eq!(bus.read(0xFE02), 0x7E);
    assert_eq!(bus.read(0xFE46), 0xFF);
    assert_eq!(bus.read(0xFE47), 0xFC);
}

#[test]
fn word_round_trip() {
    let mut bus = fresh();
    bus.write_16bit(0xC100, 0xBEEF);
    assert_eq!(bus.read(0xC100), 0xEF);
    assert_eq!(bus.read(0xC101), 0xBE);
    assert_eq!(bus.read_16bit(0xC100), 0xBEEF);
    assert_eq!(bus.read_16bit(0xE100), 0xBEEF);
    bus.write_16bit(0xFF80, 0x1234);
    assert_eq!(bus.read_16bit(0xFF80), 0x1234);
    bus.write_16bit(0xDDFF, 0xA55A);
    assert_eq!(bus.read_16bit(0xDDFF), 0xA55A);
    assert_eq!(bus.read(0xFDFF), 0x5A);
    bus.write_16bit(0xDFFF, 0x0102);
    assert_eq!(bus.read_16bit(0xDFFF), 0x0102);
    assert_eq!(bus.read(0xC000), 0x01);
}

#[test]
fn word_access_wraps_past_the_top() {
    let mut bus = fresh();
    bus.write_16bit(0xFFFF, 0x1204);
    assert_eq!(bus.peek(0xFFFF), 0x04);
    assert_eq!(bus.peek(0x0000), 0x00);
    assert_eq!(bus.read_16bit(0xFFFF), 0x31E4);
}

#[test]
fn word_write_into_interrupt_enable_reads_masked() {
    let mut bus = fresh();
    bus.write_16bit(0xFFFE, 0x0000);
    assert_eq!(bus.read_16bit(0xFFFE), 0xE000);
}

#[test]
fn word_write_triggers_both_registers() {
    let mut bus = fresh();
    bus.force_write(0xFF41, 0x07);
    bus.write_16bit(0xFF40, 0xFF00);
    assert_eq!(bus.read(0xFF40), 0x00);
    assert_eq!(bus.read(0xFF44), 0x00);
    assert_eq!(bus.read(0xFF41), 0xF8);
}

#[test]
fn force_write_bypasses_rules() {
    let mut bus = fresh();
    bus.force_write(0xC000, 0x05);
    assert_eq!(bus.peek(0xC000), 0x05);
    assert_eq!(bus.peek(0xE000), 0x00);
    bus.force_write(0xFF41, 0x07);
    assert_eq!(bus.read(0xFF41), 0x07);
    bus.force_write(0xFF00, 0x35);
    assert_eq!(bus.peek(0xFF00), 0x35);
    bus.force_write(0xFF04, 0x77);
    assert_eq!(bus.peek(0xFF04), 0x77);
    assert_eq!(bus.read(0xFF04), 0xAB);
    bus.force_write(0xFF46, 0x04);
    assert_eq!(bus.read(0xFE00), 0x00);
}

#[test]
fn interrupt_enabled_and_flagged_is_pending() {
    let mut bus = fresh();
    assert!(!bus.interrupt_pending(Interrupt::Timer));
    bus.set_interrupt_enable(Interrupt::Timer, true);
    assert_eq!(bus.peek(0xFFFF), 0xE4);
    assert!(!bus.interrupt_pending(Interrupt::Timer));
    bus.set_interrupt_flag(Interrupt::Timer, true);
    assert_eq!(bus.peek(0xFF0F), 0xE5);
    assert!(bus.interrupt_pending(Interrupt::Timer));
    assert!(!bus.interrupt_pending(Interrupt::VBlank));
    bus.set_interrupt_flag(Interrupt::Timer, false);
    assert_eq!(bus.peek(0xFF0F), 0xE1);
    assert!(!bus.interrupt_pending(Interrupt::Timer));
    bus.set_interrupt_flag(Interrupt::Timer, true);
    assert!(bus.interrupt_pending(Interrupt::Timer));
    bus.set_interrupt_enable(Interrupt::Timer, false);
    assert_eq!(bus.peek(0xFFFF), 0xE0);
    assert!(!bus.interrupt_pending(Interrupt::Timer));
}

#[test]
fn interrupt_composition_for_every_kind() {
    let kinds = [
        Interrupt::VBlank,
        Interrupt::LCDStat,
        Interrupt::Timer,
        Interrupt::Serial,
        Interrupt::Joypad,
    ];
    for kind in kinds {
        let mut bus = fresh();
        bus.force_write(0xFF0F, 0x00);
        bus.set_interrupt_enable(kind, true);
        bus.set_interrupt_flag(kind, true);
        for other in kinds {
            assert_eq!(bus.interrupt_pending(other), other == kind);
        }
        bus.set_interrupt_flag(kind, false);
        assert!(!bus.interrupt_pending(kind));
    }
}

#[test]
fn interrupt_bits() {
    assert_eq!(Interrupt::VBlank.bit_mask(), 0x01);
    assert_eq!(Interrupt::LCDStat.bit_mask(), 0x02);
    assert_eq!(Interrupt::Timer.bit_mask(), 0x04);
    assert_eq!(Interrupt::Serial.bit_mask(), 0x08);
    assert_eq!(Interrupt::Joypad.bit_mask(), 0x10);
    assert_eq!(Interrupt::Timer.set(0x00, true), 0x04);
    assert_eq!(Interrupt::Timer.set(0xFF, false), 0xFB);
    assert_eq!(Interrupt::Joypad.set(0xE1, true), 0xF1);
    assert!(Interrupt::Serial.get(0x08));
    assert!(!Interrupt::Serial.get(0xF7));
}

#[test]
fn join_bytes_is_little_endian_pair() {
    assert_eq!(join_bytes(0x12, 0x34), 0x1234);
    assert_eq!(join_bytes(0x00, 0xFF), 0x00FF);
    assert_eq!(join_bytes(0xFF, 0x00), 0xFF00);
}

#[test]
fn rom_only_ignores_writes() {
    let mut cartridge = RomOnly::new(vec![1, 2, 3]);
    cartridge.write(0x0001, 0x99);
    cartridge.write(0xA000, 0x99);
    assert_eq!(cartridge.read(0x0001), 2);
    assert_eq!(cartridge.read(0xA000), 0xFF);
    assert_eq!(bus_with(vec![1, 2, 3], 0, 0).game_rom().read(0x0002), 3);
}

#[test]
fn divider_is_upper_byte() {
    let mut divider = Divider::new(0x12FF);
    assert_eq!(divider.read_divider(), 0x12);
    divider.reset();
    assert_eq!(divider.read_divider(), 0x00);
}

#[test]
fn video_memory_starts_clear() {
    let mut memory = VideoMemory::new();
    assert_eq!(memory.read_vram(0x8000), 0);
    assert_eq!(memory.read_oam(0xFE9F), 0);
    memory.write_oam(0xFE10, 7);
    memory.write_vram(0x9ABC, 8);
    assert_eq!(memory.read_oam(0xFE10), 7);
    assert_eq!(memory.read_oam(0xFE11), 0);
    assert_eq!(memory.read_vram(0x9ABC), 8);
    assert_eq!(memory.read_vram(0x8010), 0);
}

#[test]
fn console_starts_seeded() {
    let mut console =
        Console::new(RomOnly::new(vec![0xC3]), VideoMemory::new(), Buttons::new(0x0F), Divider::new(0));
    assert_eq!(console.bus().read(0x0000), 0xC3);
    assert_eq!(console.bus().read(0xFF44), 0x91);
    assert_eq!(console.bus().read(0xFF0F), 0xE1);
    console.bus_mut().write(0xC000, 0x42);
    assert_eq!(console.bus().read(0xE000), 0x42);
}
