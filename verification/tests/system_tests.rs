use nes_core::cartridge::{Cartridge, CartridgeError, MapperKind, Mirroring};
use nes_core::controller::Button;
use nes_core::cpu::CPU;

#[test]
fn ram_write_is_visible_at_every_mirror() {
    let mut cpu = CPU::new();
    let _ = cpu.memory_write(0x0000, 0xAB);
    assert_eq!(cpu.memory_read(0x0800), 0xAB);
    assert_eq!(cpu.memory_read(0x1000), 0xAB);
    assert_eq!(cpu.memory_read(0x1800), 0xAB);
    let _ = cpu.memory_write(0x1801, 0xCD);
    assert_eq!(cpu.memory_read(0x0001), 0xCD);
}

#[test]
fn vblank_flag_reads_once_then_clears() {
    let mut cpu = CPU::new();
    cpu.bus.ppu.scanline = 241;
    cpu.bus.ppu.cycle = 0;
    let nmi = cpu.bus.ppu.tick();
    assert!(!nmi); // interrupts not enabled by the control register
    assert!(cpu.bus.ppu.vblank);
    let first = cpu.memory_read(0x2002);
    assert_ne!(first & 0x80, 0);
    let second = cpu.memory_read(0x2002);
    assert_eq!(second & 0x80, 0);
}

#[test]
fn vblank_raises_interrupt_when_enabled() {
    let mut cpu = CPU::new();
    let _ = cpu.memory_write(0x2000, 0x80);
    cpu.bus.ppu.scanline = 241;
    cpu.bus.ppu.cycle = 0;
    let nmi = cpu.bus.ppu.tick();
    assert!(nmi);
    assert!(cpu.bus.ppu.nmi_pending);
}

#[test]
fn ppu_register_addresses_mirror_every_eight_bytes() {
    let mut cpu = CPU::new();
    cpu.bus.ppu.vblank = true;
    // 0x200A aliases the status register at 0x2002.
    let first = cpu.memory_read(0x200A);
    assert_ne!(first & 0x80, 0);
    assert!(!cpu.bus.ppu.vblank);
}

#[test]
fn oam_dma_copies_a_page_and_costs_513_or_514() {
    let mut cpu = CPU::new();
    for i in 0..256u16 {
        let _ = cpu.memory_write(0x0200 + i, i as u8);
    }
    // The machine cycle counter is even: 513 cycles.
    let stall = cpu.memory_write(0x4014, 0x02);
    assert_eq!(stall, 513);
    for i in 0..256usize {
        assert_eq!(cpu.bus.ppu.oam[i], i as u8);
    }
    // After one more cycle the counter is odd: 514 cycles.
    cpu.bus.advance(1);
    let stall2 = cpu.memory_write(0x4014, 0x02);
    assert_eq!(stall2, 514);
}

#[test]
fn oam_dma_cost_reaches_the_run_loop() {
    // STA $4014 with the page in A: the instruction's cost includes the
    // DMA stall, and the run loop advances the machine clock by it.
    let mut cpu = CPU::new();
    cpu.load(vec![0xA9, 0x02, 0x8D, 0x14, 0x40, 0x00]);
    cpu.reset();
    let lda = cpu.step_machine().unwrap();
    assert_eq!(lda, 2);
    let sta = cpu.step_machine().unwrap();
    assert_eq!(sta, 4 + 513);
    assert_eq!(cpu.bus.cycles, 2 + 4 + 513);
}

#[test]
fn controller_shifts_out_bits_serially() {
    let mut cpu = CPU::new();
    cpu.bus.controller.set_button(Button::A, true);
    cpu.bus.controller.set_button(Button::Start, true);
    let _ = cpu.memory_write(0x4016, 1);
    let _ = cpu.memory_write(0x4016, 0);
    let mut bits = Vec::new();
    for _ in 0..8 {
        bits.push(cpu.memory_read(0x4016));
    }
    assert_eq!(bits, vec![1, 0, 0, 1, 0, 0, 0, 0]);
    // Past the eighth read the port reads open-bus 1.
    assert_eq!(cpu.memory_read(0x4016), 1);
}

#[test]
fn strobe_drop_snapshots_buttons_for_the_whole_readout() {
    let mut cpu = CPU::new();
    cpu.bus.controller.set_button(Button::A, true);
    let _ = cpu.memory_write(0x4016, 1);
    let _ = cpu.memory_write(0x4016, 0);
    // Button events after the strobe drops must not reach bits the
    // hardware already latched.
    cpu.bus.controller.set_button(Button::A, false);
    cpu.bus.controller.set_button(Button::B, true);
    let mut bits = Vec::new();
    for _ in 0..8 {
        bits.push(cpu.memory_read(0x4016));
    }
    assert_eq!(bits, vec![1, 0, 0, 0, 0, 0, 0, 0]);
    // The next strobe pulse picks up the live bitmask as it now stands.
    let _ = cpu.memory_write(0x4016, 1);
    let _ = cpu.memory_write(0x4016, 0);
    assert_eq!(cpu.memory_read(0x4016), 0); // A released
    assert_eq!(cpu.memory_read(0x4016), 1); // B pressed
}

#[test]
fn malformed_cartridge_is_rejected() {
    let r = Cartridge::new(vec![0; 100], vec![0; 0x2000], MapperKind::Fixed, Mirroring::Vertical);
    assert!(matches!(r, Err(CartridgeError::PrgSize)));
    let r2 = Cartridge::new(
        vec![0; 0x4000],
        vec![0; 0x1000],
        MapperKind::Fixed,
        Mirroring::Vertical,
    );
    assert!(matches!(r2, Err(CartridgeError::ChrSize)));
    assert!(CartridgeError::PrgSize.message().contains("PRG"));
    assert!(CartridgeError::ChrSize.message().contains("CHR"));
    let ok = Cartridge::new(
        vec![0; 0x8000],
        vec![0; 0x2000],
        MapperKind::Fixed,
        Mirroring::Vertical,
    );
    assert!(ok.is_ok());
}

#[test]
fn prg_bank_switch_takes_effect_for_subsequent_reads() {
    let mut prg = vec![0u8; 0x8000];
    prg[0x0000] = 0x11; // bank 0
    prg[0x4000] = 0x22; // bank 1 (also the fixed last bank)
    let cart = Cartridge::new(prg, vec![0; 0x2000], MapperKind::PrgSwitch, Mirroring::Vertical)
        .unwrap();
    let mut cpu = CPU::with_cartridge(cart);
    assert_eq!(cpu.memory_read(0x8000), 0x11);
    assert_eq!(cpu.memory_read(0xC000), 0x22); // last bank, fixed
    let _ = cpu.memory_write(0x8000, 1); // select bank 1
    assert_eq!(cpu.memory_read(0x8000), 0x22);
    assert_eq!(cpu.memory_read(0xC000), 0x22);
}

#[test]
fn ppu_data_port_round_trips_through_vram() {
    let mut cpu = CPU::new();
    // Point the video address at 0x2108 in nametable space.
    let _ = cpu.memory_write(0x2006, 0x21);
    let _ = cpu.memory_write(0x2006, 0x08);
    let _ = cpu.memory_write(0x2007, 0x42);
    // Read it back: the first data read returns the stale buffer.
    let _ = cpu.memory_write(0x2006, 0x21);
    let _ = cpu.memory_write(0x2006, 0x08);
    let _ = cpu.memory_read(0x2007);
    assert_eq!(cpu.memory_read(0x2007), 0x42);
}

#[test]
fn palette_reads_are_direct_and_mirrored() {
    let mut cpu = CPU::new();
    let _ = cpu.memory_write(0x2006, 0x3F);
    let _ = cpu.memory_write(0x2006, 0x10);
    let _ = cpu.memory_write(0x2007, 0x2D);
    // 0x3F10 aliases 0x3F00; palette reads skip the read buffer.
    let _ = cpu.memory_write(0x2006, 0x3F);
    let _ = cpu.memory_write(0x2006, 0x00);
    assert_eq!(cpu.memory_read(0x2007), 0x2D);
}

#[test]
fn battery_ram_accepts_reads_and_writes() {
    let mut cpu = CPU::new();
    let _ = cpu.memory_write(0x6000, 0x5C);
    assert_eq!(cpu.memory_read(0x6000), 0x5C);
    // The expansion area below it reads open-bus 0.
    assert_eq!(cpu.memory_read(0x4020), 0);
}

#[test]
fn nmi_vectors_into_the_handler() {
    let mut cpu = CPU::new();
    cpu.load(vec![0xEA, 0x00]);
    cpu.reset();
    // Handler address 0x9000 in the interrupt vector at 0xFFFA.
    cpu.bus.cartridge.prg[0x7FFA] = 0x00;
    cpu.bus.cartridge.prg[0x7FFB] = 0x90;
    cpu.bus.ppu.nmi_pending = true;
    let cycles = cpu.step_machine().unwrap();
    assert_eq!(cycles, 7);
    assert_eq!(cpu.program_counter, 0x9000);
    assert!(!cpu.bus.ppu.nmi_pending);
}

#[test]
fn background_pixel_samples_nametable_pattern_and_palette() {
    let mut chr = vec![0u8; 0x2000];
    chr[16] = 0x80; // tile 1, row 0: leftmost pixel has pattern bit 0 set
    let cart = Cartridge::new(vec![0; 0x8000], chr, MapperKind::Fixed, Mirroring::Vertical)
        .unwrap();
    let mut cpu = CPU::with_cartridge(cart);
    // Name the tile: nametable entry (0, 0) = tile 1.
    let _ = cpu.memory_write(0x2006, 0x20);
    let _ = cpu.memory_write(0x2006, 0x00);
    let _ = cpu.memory_write(0x2007, 0x01);
    // Palette: universal background 0x0F, background colour 1 = 0x21.
    let _ = cpu.memory_write(0x2006, 0x3F);
    let _ = cpu.memory_write(0x2006, 0x00);
    let _ = cpu.memory_write(0x2007, 0x0F);
    let _ = cpu.memory_write(0x2007, 0x21);
    let _ = cpu.memory_write(0x2001, 0x08); // show background
    cpu.bus.ppu.t = 0; // scroll home
    cpu.bus.ppu.fine_x = 0;
    cpu.bus.ppu.scanline = 0;
    cpu.bus.ppu.render_scanline(&cpu.bus.cartridge);
    assert_eq!(cpu.bus.ppu.frame[0], 0x21); // the tile's opaque pixel
    assert_eq!(cpu.bus.ppu.frame[1], 0x0F); // transparent: universal colour
}

#[test]
fn sprite_overlays_transparent_background() {
    let mut chr = vec![0u8; 0x2000];
    chr[16] = 0x80; // tile 1, row 0: leftmost pixel opaque
    let cart = Cartridge::new(vec![0; 0x8000], chr, MapperKind::Fixed, Mirroring::Vertical)
        .unwrap();
    let mut cpu = CPU::with_cartridge(cart);
    // Sprite 0: top-left corner at (4, 0), tile 1, palette 0, in front.
    cpu.bus.ppu.oam[1] = 1; // tile
    cpu.bus.ppu.oam[3] = 4; // x
    // Sprite palette: colour 1 of sprite palette 0 = 0x15.
    let _ = cpu.memory_write(0x2006, 0x3F);
    let _ = cpu.memory_write(0x2006, 0x11);
    let _ = cpu.memory_write(0x2007, 0x15);
    let _ = cpu.memory_write(0x2001, 0x18); // background and sprites on
    cpu.bus.ppu.t = 0;
    cpu.bus.ppu.fine_x = 0;
    cpu.bus.ppu.scanline = 0;
    cpu.bus.ppu.render_scanline(&cpu.bus.cartridge);
    assert_eq!(cpu.bus.ppu.frame[4], 0x15);
}

#[test]
fn ninth_covering_sprite_sets_overflow() {
    // Every entry of the zeroed sprite table covers scanline 0, so far more
    // than 8 qualify.
    let mut cpu = CPU::new();
    let _ = cpu.memory_write(0x2001, 0x10); // sprites on
    cpu.bus.ppu.scanline = 0;
    cpu.bus.ppu.render_scanline(&cpu.bus.cartridge);
    assert!(cpu.bus.ppu.sprite_overflow);
    assert!(!cpu.bus.ppu.sprite_zero_hit); // tile 0 is blank: no pixels
}

#[test]
fn rendering_happens_during_the_run_loop() {
    let mut chr = vec![0u8; 0x2000];
    for i in 0..16 {
        chr[i] = 0xFF; // tile 0: fully opaque
    }
    let cart = Cartridge::new(vec![0; 0x8000], chr, MapperKind::Fixed, Mirroring::Vertical)
        .unwrap();
    let mut cpu = CPU::with_cartridge(cart);
    // Both planes of tile 0 are set, so its pattern value is 3:
    // background colour 3 = 0x30. The zeroed nametable names tile 0.
    let _ = cpu.memory_write(0x2006, 0x3F);
    let _ = cpu.memory_write(0x2006, 0x03);
    let _ = cpu.memory_write(0x2007, 0x30);
    let _ = cpu.memory_write(0x2001, 0x08);
    cpu.bus.ppu.t = 0;
    cpu.bus.ppu.fine_x = 0;
    // One scanline is 341 dots = 114 CPU cycles; run well past it.
    cpu.bus.advance(200);
    assert_eq!(cpu.bus.ppu.frame[0], 0x30);
}

#[test]
fn machine_boots_from_the_cartridge_reset_vector() {
    let mut prg = vec![0u8; 0x8000];
    prg[0x0000] = 0xA9; // LDA #$01
    prg[0x0001] = 0x01;
    prg[0x0002] = 0x00; // BRK
    prg[0x7FFC] = 0x00; // reset vector: 0x8000
    prg[0x7FFD] = 0x80;
    let cart = Cartridge::new(prg, vec![0; 0x2000], MapperKind::Fixed, Mirroring::Horizontal)
        .unwrap();
    let mut cpu = CPU::with_cartridge(cart);
    cpu.reset();
    assert_eq!(cpu.program_counter, 0x8000);
    cpu.run().unwrap();
    assert_eq!(cpu.register_a, 0x01);
    assert!(cpu.halted);
}

#[test]
fn vblank_interrupt_reaches_the_handler_during_a_run() {
    let mut prg = vec![0u8; 0x8000];
    // Enable the vblank interrupt, then spin.
    prg[0x0000] = 0xA9; // LDA #$80
    prg[0x0001] = 0x80;
    prg[0x0002] = 0x8D; // STA $2000
    prg[0x0003] = 0x00;
    prg[0x0004] = 0x20;
    prg[0x0005] = 0x4C; // JMP $8005
    prg[0x0006] = 0x05;
    prg[0x0007] = 0x80;
    // The handler at 0x9000 marks that it ran and halts.
    prg[0x1000] = 0xA2; // LDX #$07
    prg[0x1001] = 0x07;
    prg[0x1002] = 0x00; // BRK
    prg[0x7FFA] = 0x00; // interrupt vector: 0x9000
    prg[0x7FFB] = 0x90;
    prg[0x7FFC] = 0x00; // reset vector: 0x8000
    prg[0x7FFD] = 0x80;
    let cart = Cartridge::new(prg, vec![0; 0x2000], MapperKind::Fixed, Mirroring::Horizontal)
        .unwrap();
    let mut cpu = CPU::with_cartridge(cart);
    cpu.reset();
    cpu.run().unwrap();
    assert_eq!(cpu.register_x, 0x07);
    // The interrupt comes at the entry to vertical blank, scanline 241.
    assert!(cpu.bus.cycles >= 241 * 341 / 3);
}
