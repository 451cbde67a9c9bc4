use chipsand::input::Control;
use chipsand::joypad::{Joypad, Key};
use chipsand::mbc::load;
use chipsand::mmu::MMU;
use chipsand::ppu::{Mode, PixelFifo, PPU};
use chipsand::serial::Serial;
use chipsand::{screen_buffer_to_vec, Interrupt};

#[test]
fn joypad_reports_selected_half() {
    let mut pad = Joypad::new();
    pad.write_word(0x20);
    assert_eq!(pad.read_word() & 0x0F, 0x0F);
    pad.key_down(Key::Up);
    assert_eq!(pad.read_word() & 0x0F, 0x07);
    pad.write_word(0x10);
    assert_eq!(pad.read_word() & 0x0F, 0x0F);
    pad.key_down(Key::A);
    assert_eq!(pad.read_word() & 0x0F, 0x0E);
    pad.key_up(Key::A);
    assert_eq!(pad.read_word() & 0x0F, 0x0F);
}

#[test]
fn joypad_press_raises_interrupt() {
    let mut pad = Joypad::new();
    pad.write_word(0x20);
    assert_eq!(pad.tick(), 0);
    assert_eq!(pad.tick(), 0);
    pad.process_inputs(Control::KeyDown(Key::Down));
    assert_eq!(pad.tick(), 0x10);
    assert_eq!(pad.tick(), 0);
    pad.process_inputs(Control::KeyUp(Key::Down));
    assert_eq!(pad.tick(), 0);
    pad.process_inputs(Control::Quit);
    assert_eq!(pad.directions, 0x0F);
}

#[test]
fn serial_shifts_out_and_interrupts() {
    let mut serial = Serial::new();
    serial.write_word(0xFF01, 0xA5);
    serial.write_word(0xFF02, 0x81);
    assert_eq!(serial.read_word(0xFF02), 0xFF);
    let mut raised = 0;
    for i in 0..1024 {
        if serial.tick() == Interrupt::SERIAL {
            raised += 1;
            assert_eq!(i, 1023);
        }
    }
    assert_eq!(raised, 1);
    assert_eq!(serial.read_word(0xFF02), 0x7F);
    assert_eq!(serial.sb, 0);
}

#[test]
fn cartridge_reads_rom_and_ram() {
    let mut cart = load(vec![1, 2, 3]);
    assert_eq!(cart.read_word(0x0001), 2);
    assert_eq!(cart.read_word(0x4000), 0xFF);
    cart.write_word(0x0001, 9);
    assert_eq!(cart.read_word(0x0001), 2);
    cart.write_word(0xA123, 7);
    assert_eq!(cart.read_word(0xA123), 7);
}

#[test]
fn bus_decodes_regions() {
    let mut mmu = MMU::new(vec![0x11; 0x8000]);
    assert_eq!(mmu.read_word(0x1234), 0x11);
    mmu.write_word(0xC123, 0x5A);
    assert_eq!(mmu.read_word(0xE123), 0x5A);
    assert_eq!(mmu.read_word(0xFEA5), 0x00);
    mmu.write_word(0xFF80, 0x77);
    assert_eq!(mmu.read_word(0xFF80), 0x77);
    mmu.write_word(0xFF0F, 0x01);
    assert_eq!(mmu.read_word(0xFF0F), 0xE1);
    mmu.write_word(0xFFFF, 0x03);
    assert_eq!(mmu.get_interrupts(), 0x01);
    mmu.write_word(0xFF20, 0x99);
    assert_eq!(mmu.read_word(0xFF20), 0x99);
    mmu.write_word(0xFF4B, 0x07);
    assert_eq!(mmu.read_word(0xFF4B), 0x07);
    mmu.write_dw(0xC000, 0xBEEF);
    assert_eq!(mmu.read_word(0xC000), 0xEF);
    assert_eq!(mmu.read_dw(0xC000), 0xBEEF);
}

#[test]
fn interrupt_flag_upper_bits_read_set() {
    let mmu = MMU::new(vec![0; 0x8000]);
    assert_eq!(mmu.read_word(0xFF0F) & 0xE0, 0xE0);
}

#[test]
fn ly_is_read_only() {
    let mut ppu = PPU::new();
    ppu.write_word(0xFF44, 0x22);
    assert_eq!(ppu.read_word(0xFF44), 0);
}

#[test]
fn oam_dma_copies_160_bytes() {
    let mut mmu = MMU::new(vec![0; 0x8000]);
    for i in 0..160u16 {
        mmu.write_word(0xC000 + i, i as u8 ^ 0x5A);
    }
    mmu.write_word(0xFF46, 0xC0);
    assert_eq!(mmu.read_word(0xFF46), 0xC0);
    for _ in 0..160 {
        mmu.tick();
    }
    for i in 0..160u16 {
        assert_eq!(mmu.read_word(0xFE00 + i), i as u8 ^ 0x5A);
    }
}

#[test]
fn lcd_off_keeps_ppu_still() {
    let mut ppu = PPU::new();
    for _ in 0..1000 {
        assert_eq!(ppu.tick(), 0);
    }
    assert_eq!(ppu.ly, 0);
    assert!(ppu.take_frame().is_none());
}

#[test]
fn vblank_comes_every_70224_clocks() {
    let mut ppu = PPU::new();
    ppu.write_word(0xFF40, 0x91);
    let mut raises = Vec::new();
    for i in 0..(3 * 17556 + 10) {
        if ppu.tick() & 1 != 0 {
            raises.push(i);
        }
    }
    assert!(raises.len() >= 3);
    for w in raises.windows(2) {
        assert_eq!((w[1] - w[0]) * 4, 70224);
    }
}

#[test]
fn transfer_blocks_vram() {
    let mut ppu = PPU::new();
    ppu.write_word(0x8000, 0x12);
    ppu.write_word(0xFF40, 0x91);
    let mut seen_transfer = false;
    for _ in 0..200 {
        ppu.tick();
        if ppu.lcd_stat.mode == Mode::TRANSFER {
            seen_transfer = true;
            assert_eq!(ppu.read_word(0x8000), 0xFF);
            assert_eq!(ppu.read_word(0xFE00), 0xFF);
        }
    }
    assert!(seen_transfer);
    ppu.write_word(0xFF40, 0x11);
    assert_eq!(ppu.read_word(0x8000), 0x12);
}

#[test]
fn frame_shows_background_shades() {
    let mut ppu = PPU::new();
    // tile 0: first row all colour 3
    ppu.write_word(0x8000, 0xFF);
    ppu.write_word(0x8001, 0xFF);
    ppu.write_word(0xFF47, 0xE4);
    ppu.write_word(0xFF40, 0x91);
    let mut frame = None;
    for _ in 0..17556 * 2 {
        ppu.tick();
        if let Some(f) = ppu.take_frame() {
            frame = Some(f);
            break;
        }
    }
    let frame = frame.unwrap();
    assert_eq!(frame.len(), 160 * 144);
    assert_eq!(frame[0], 3);
    assert_eq!(frame[159], 3);
    assert_eq!(frame[160], 0);
    assert_eq!(frame[8 * 160], 3);
}

#[test]
fn fifo_holds_pixels_until_more_than_eight() {
    let mut fifo = PixelFifo::new();
    for i in 0..9 {
        fifo.push(i);
    }
    assert!(fifo.is_ready());
    assert_eq!(fifo.pop(), Some(0));
    assert!(!fifo.is_ready());
    fifo.tick(0);
    assert_eq!(fifo.x, 0);
}

#[test]
fn screen_buffer_flattens_rows() {
    let mut pixels = [[0u8; 160]; 144];
    pixels[0][1] = 1;
    pixels[1][0] = 2;
    pixels[143][159] = 3;
    let v = screen_buffer_to_vec(&pixels);
    assert_eq!(v.len(), 23040);
    assert_eq!(v[1], 1);
    assert_eq!(v[160], 2);
    assert_eq!(v[23039], 3);
}

#[test]
fn joypad_hidden_halves_read_released() {
    let mut pad = Joypad::new();
    pad.key_down(Key::Up);
    pad.key_down(Key::A);
    pad.write_word(0x30);
    assert_eq!(pad.read_word(), 0xFF);
}

#[test]
fn joypad_both_halves_shown_combine_pressed_keys() {
    let mut pad = Joypad::new();
    pad.write_word(0x00);
    assert_eq!(pad.read_word(), 0xCF);
    pad.key_down(Key::Up);
    assert_eq!(pad.read_word() & 0x0F, 0x07);
    pad.key_down(Key::A);
    assert_eq!(pad.read_word() & 0x0F, 0x06);
}

#[test]
fn lcd_off_write_resets_ly() {
    let mut ppu = PPU::new();
    ppu.write_word(0xFF40, 0x91);
    for _ in 0..2000 {
        ppu.tick();
    }
    assert!(ppu.read_word(0xFF44) > 0);
    ppu.write_word(0xFF40, 0x11);
    assert_eq!(ppu.read_word(0xFF44), 0);
    for _ in 0..100 {
        assert_eq!(ppu.tick(), 0);
    }
    assert_eq!(ppu.read_word(0xFF44), 0);
    ppu.write_word(0xFF40, 0x91);
    let mut raises = 0;
    for _ in 0..17556 {
        if ppu.tick() & 1 != 0 {
            raises += 1;
        }
    }
    assert_eq!(raises, 1);
}
