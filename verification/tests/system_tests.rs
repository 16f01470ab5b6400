//! Exercises of the bus, timer, controller and PPU against a small ROM.

use rustyboy::rom::Rom;
use rustyboy::system::GBSystem;

/// A minimal 32 KiB image: plain ROM unless a type byte is given.
fn make_rom(ctype: u8, size_code: u8, ram_code: u8) -> Rom {
    let banks = match size_code {
        0x00 => 2,
        0x01 => 4,
        0x02 => 8,
        0x03 => 16,
        _ => 2,
    };
    let mut data = vec![0u8; banks * 16384];
    data[0x147] = ctype;
    data[0x148] = size_code;
    data[0x149] = ram_code;
    // Tag the first byte of every bank with its bank number.
    for b in 0..banks {
        data[b * 16384] = b as u8;
    }
    Rom::from_bytes("game.gb", &data).unwrap()
}

#[test]
fn div_write_resets_the_divider() {
    let mut sys = GBSystem::new(make_rom(0, 0, 0));
    sys.update(4096);
    assert_ne!(sys.read8(0xff04), 0);
    sys.write8(0xff04, 0x5a);
    assert_eq!(sys.read8(0xff04), 0);
}

#[test]
fn div_reset_timing_steps_tima() {
    // TAC = 0x05: enabled, divider bit 3 selected.
    let mut sys = GBSystem::new(make_rom(0, 0, 0));
    sys.write8(0xff07, 0x05);
    sys.update(8); // div16 = 0x0008: selected bit is high
    assert_eq!(sys.read8(0xff05), 0);
    sys.write8(0xff04, 0x00); // falling edge on reset
    assert_eq!(sys.read8(0xff05), 1);
}

#[test]
fn mbc1_bank_switch() {
    // 256 KiB ROM (16 banks), MBC1.
    let mut sys = GBSystem::new(make_rom(0x01, 0x03, 0x00));
    assert_eq!(sys.read8(0x4000), 1); // bank 1 after power-on
    sys.write8(0x2100, 0x05);
    assert_eq!(sys.read8(0x4000), 5); // rom.banks[5][0]
    sys.write8(0x2100, 0x00); // zero selects bank 1
    assert_eq!(sys.read8(0x4000), 1);
}

#[test]
fn external_ram_is_gated_and_battery_marks_saves() {
    // MBC1 + RAM + battery, 8 KiB RAM.
    let mut sys = GBSystem::new(make_rom(0x03, 0x00, 0x02));
    sys.write8(0xa000, 0x77);
    assert_eq!(sys.read8(0xa000), 0xff); // disabled: dropped, reads 0xFF
    assert!(!sys.mbc.save_pending);
    sys.write8(0x0000, 0x0a); // enable RAM
    sys.write8(0xa000, 0x77);
    assert_eq!(sys.read8(0xa000), 0x77);
    // The save image is the whole declared RAM, with the byte in place.
    assert!(sys.mbc.save_pending);
    assert_eq!(sys.mbc.save_image().len(), 8192);
    assert_eq!(sys.mbc.save_image()[0], 0x77);
}

#[test]
fn unusable_and_echo_regions() {
    let mut sys = GBSystem::new(make_rom(0, 0, 0));
    assert_eq!(sys.read8(0xfea0), 0xff); // unusable reads 0xFF
    sys.write8(0xc123, 0x42);
    assert_eq!(sys.read8(0xe123), 0x42); // echo of work RAM
    sys.write8(0xff80, 0x99);
    assert_eq!(sys.read8(0xff80), 0x99); // high RAM
}

#[test]
fn ly_is_read_only_and_cycles_through_a_frame() {
    let mut sys = GBSystem::new(make_rom(0, 0, 0));
    sys.write8(0xff44, 0x55); // ignored
    assert_eq!(sys.read8(0xff44), 0);
    // One scanline is 456 clocks.
    sys.update(456);
    assert_eq!(sys.read8(0xff44), 1);
    // Drive to VBLANK: after 144 lines LY = 144 and the VBLANK interrupt
    // is pending.
    for _ in 0..143 {
        sys.update(456);
    }
    assert_eq!(sys.read8(0xff44), 144);
    assert_eq!(sys.read8(0xff41) % 4, 1); // STAT mode bits: VBLANK
    assert_ne!(sys.read8(0xff0f) % 2, 0); // IF bit 0
    assert!(sys.video.frame_ready);
    // A whole frame is 154 lines of 456 clocks = 70224.
    for _ in 0..10 {
        sys.update(456);
    }
    assert_eq!(sys.read8(0xff44), 0);
    assert_eq!(sys.read8(0xff41) % 4, 2); // back to OAM scan
}

#[test]
fn window_fills_the_top_row() {
    // WX=7, WY=0, window enabled, BG disabled, window tile 0 solid
    // color 3: row 0 is all the BGP[3] shade.
    let mut sys = GBSystem::new(make_rom(0, 0, 0));
    // LCDC: LCD on (7), window on (5), BG off: 0b1010_0000.
    sys.write8(0xff40, 0xa0);
    sys.write8(0xff4a, 0); // WY
    sys.write8(0xff4b, 7); // WX
    sys.write8(0xff47, 0xe4); // BGP: 3->black
    // Tile 0 solid color 3: both planes all ones.  LCDC bit 4 is 0, so
    // tile data is signed from 0x9000; map entry 0 selects tile 256 at
    // 0x9000.
    for i in 0..16 {
        sys.write8(0x9000 + i, 0xff);
    }
    // Render line 0 (80 + 172 clocks reach the draw).
    sys.update(252);
    for x in 0..160usize {
        assert_eq!(sys.video.back_buffer[x], 0x00);
    }
}

#[test]
fn sprite_priority_lower_oam_index_wins_at_equal_x() {
    let mut sys = GBSystem::new(make_rom(0, 0, 0));
    // LCD on, sprites on, BG off: 0b1000_0010.
    sys.write8(0xff40, 0x82);
    sys.write8(0xff48, 0xe4); // OBP0: 1 -> light gray (0xb6), 3 -> black
    // Tile 1: solid color 3; tile 2: solid color 1.
    for i in 0..16 {
        sys.write8(0x8010 + i, 0xff);
    }
    for i in 0..8 {
        sys.write8(0x8020 + i * 2, 0xff);
        sys.write8(0x8021 + i * 2, 0x00);
    }
    // Sprite 0 at x=20 (raw), tile 1 (pattern 3); sprite 1 at the same
    // spot, tile 2 (pattern 1); both intersect LY=16 (raw y=32 -> top at
    // 16).
    let s0 = [32u8, 20, 1, 0];
    let s1 = [32u8, 20, 2, 0];
    for (i, b) in s0.iter().enumerate() {
        sys.write8(0xfe00 + i as u16, *b);
    }
    for (i, b) in s1.iter().enumerate() {
        sys.write8(0xfe04 + i as u16, *b);
    }
    // Render up to and including line 16.
    for _ in 0..16 {
        sys.update(456);
    }
    sys.update(252);
    // Screen x in [12..20) shows sprite 0's pattern-3 color.
    for x in 12..20usize {
        assert_eq!(sys.video.back_buffer[16 * 160 + x], 0x00);
    }
}

#[test]
fn oam_dma_copies_a_byte_per_machine_cycle() {
    let mut sys = GBSystem::new(make_rom(0, 0, 0));
    for i in 0..160u16 {
        sys.write8(0xc000 + i, (i % 251) as u8);
    }
    sys.write8(0xff46, 0xc0);
    assert!(sys.video.oam.dma_transfer);
    sys.update(160 * 4);
    assert!(!sys.video.oam.dma_transfer);
    for i in 0..160u16 {
        assert_eq!(sys.read8(0xfe00 + i), (i % 251) as u8);
    }
}

#[test]
fn joypad_selects_nibbles_and_raises_interrupts() {
    let mut sys = GBSystem::new(make_rom(0, 0, 0));
    assert_eq!(sys.read8(0xff00), 0x0f); // nothing selected
    sys.joypad.set_a_pressed(true, &mut sys.interrupt_regs);
    sys.write8(0xff00, 0x10); // select action keys
    assert_eq!(sys.read8(0xff00), 0x10 | 0x0e); // A pressed = bit 0 low
    let before = sys.read8(0xff0f);
    sys.joypad.set_a_pressed(false, &mut sys.interrupt_regs);
    assert_eq!(sys.read8(0xff00), 0x10 | 0x0f);
    assert_eq!(sys.read8(0xff0f), before | 0x10); // joypad interrupt
}

use rustyboy::rom::RomError;

#[test]
fn bad_headers_are_rejected() {
    let mut data = vec![0u8; 32768];
    data[0x147] = 0x04; // undefined cartridge type
    assert!(matches!(Rom::from_bytes("x.gb", &data), Err(RomError::BadCartridgeType)));
    data[0x147] = 0x00;
    data[0x148] = 0x51; // undefined ROM size
    assert!(matches!(Rom::from_bytes("x.gb", &data), Err(RomError::BadRomSize)));
    data[0x148] = 0x01; // declares 64 KiB but only 32 KiB given
    assert!(matches!(Rom::from_bytes("x.gb", &data), Err(RomError::UnexpectedEof)));
    data[0x148] = 0x00;
    data[0x149] = 0x06; // undefined RAM size
    assert!(matches!(Rom::from_bytes("x.gb", &data), Err(RomError::BadRamSize)));
    assert!(matches!(Rom::from_bytes("x.gb", &vec![0u8; 10]), Err(RomError::TooShort)));
}
