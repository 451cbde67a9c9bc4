use vstd::prelude::*;

use crate::joypad::Joypad;
use crate::mbc;
use crate::mbc::mbc0::{is_cart_adr, CartView, MBC0};
use crate::ppu::{Control, PpuView, Stat, OAM_SIZE, PPU, VRAM_SIZE};
use crate::registers::word;
use crate::serial::Serial;
use crate::timer::Timer;
use crate::{wrap16, Interrupt};

verus! {

pub const DMA_LENGTH: u16 = 160;
pub const WRAM_SIZE: usize = 8192;
pub const HRAM_SIZE: usize = 128;
pub const IRAM_SIZE: usize = 0x80;

/// The memory bus: address decoding over the cartridge, work RAM, high RAM,
/// the I/O registers and the devices behind them, plus OAM DMA.
pub struct MMU {
    pub mbc: MBC0,
    pub wram: Vec<u8>,
    pub hram: Vec<u8>,
    pub iram: Vec<u8>,
    pub timer: Timer,
    pub interrupt_flags: u8,
    pub interrupt_enable: u8,
    pub dma_cycles_left: u16,
    pub dma_start_adr: u16,
    pub ppu: PPU,
    pub serial: Serial,
    pub joypad: Joypad,
}

pub struct MmuView {
    pub cart: CartView,
    pub wram: Seq<u8>,
    pub hram: Seq<u8>,
    pub iram: Seq<u8>,
    pub timer: Timer,
    pub interrupt_flags: u8,
    pub interrupt_enable: u8,
    pub dma_cycles_left: u16,
    pub dma_start_adr: u16,
    pub ppu: PpuView,
    pub serial: Serial,
    pub joypad: Joypad,
}

impl View for MMU {
    type V = MmuView;

    open spec fn view(&self) -> MmuView {
        MmuView {
            cart: self.mbc@,
            wram: self.wram@,
            hram: self.hram@,
            iram: self.iram@,
            timer: self.timer,
            interrupt_flags: self.interrupt_flags,
            interrupt_enable: self.interrupt_enable,
            dma_cycles_left: self.dma_cycles_left,
            dma_start_adr: self.dma_start_adr,
            ppu: self.ppu@,
            serial: self.serial,
            joypad: self.joypad,
        }
    }
}

pub open spec fn is_timer_adr(adr: u16) -> bool {
    0xFF04 <= adr <= 0xFF07
}

pub open spec fn is_serial_adr(adr: u16) -> bool {
    adr == 0xFF01 || adr == 0xFF02
}

pub open spec fn is_ppu_register(adr: u16) -> bool {
    0xFF40 <= adr <= 0xFF4B
}

impl MmuView {
    pub open spec fn wf(self) -> bool {
        &&& self.cart.wf()
        &&& self.wram.len() == WRAM_SIZE
        &&& self.hram.len() == HRAM_SIZE
        &&& self.iram.len() == IRAM_SIZE
        &&& self.ppu.wf()
        &&& self.dma_cycles_left <= 4 * DMA_LENGTH
        &&& self.dma_cycles_left % 4 == 0
        &&& self.dma_start_adr <= 0xFF00
    }

    /// The byte that the bus returns for an address.
    #[verifier::opaque]
    pub open spec fn read(self, adr: u16) -> u8 {
        if is_cart_adr(adr) {
            self.cart.read(adr)
        } else if 0x8000 <= adr <= 0x9FFF {
            self.ppu.read(adr)
        } else if 0xC000 <= adr <= 0xDFFF {
            self.wram[adr - 0xC000]
        } else if 0xE000 <= adr <= 0xFDFF {
            self.wram[adr - 0xE000]
        } else if 0xFE00 <= adr <= 0xFE9F {
            self.ppu.read(adr)
        } else if 0xFEA0 <= adr <= 0xFEFF {
            0
        } else if adr == 0xFF00 {
            self.joypad.read()
        } else if is_serial_adr(adr) {
            self.serial.read(adr)
        } else if is_timer_adr(adr) {
            self.timer.read(adr)
        } else if adr == 0xFF0F {
            self.interrupt_flags | 0xE0
        } else if adr == 0xFF46 {
            (self.dma_start_adr / 256) as u8
        } else if is_ppu_register(adr) {
            self.ppu.read(adr)
        } else if 0xFF00 <= adr <= 0xFF7F {
            self.iram[adr - 0xFF00]
        } else if 0xFF80 <= adr <= 0xFFFE {
            self.hram[adr - 0xFF80]
        } else {
            self.interrupt_enable
        }
    }

    /// The bus after a byte is written at an address.
    #[verifier::opaque]
    pub open spec fn written(self, adr: u16, v: u8) -> MmuView {
        if is_cart_adr(adr) {
            MmuView { cart: self.cart.written(adr, v), ..self }
        } else if 0x8000 <= adr <= 0x9FFF {
            MmuView { ppu: self.ppu.written(adr, v), ..self }
        } else if 0xC000 <= adr <= 0xDFFF {
            MmuView { wram: self.wram.update(adr - 0xC000, v), ..self }
        } else if 0xE000 <= adr <= 0xFDFF {
            MmuView { wram: self.wram.update(adr - 0xE000, v), ..self }
        } else if 0xFE00 <= adr <= 0xFE9F {
            MmuView { ppu: self.ppu.written(adr, v), ..self }
        } else if 0xFEA0 <= adr <= 0xFEFF {
            self
        } else {
            self.io_written(adr, v)
        }
    }

    /// The bus after a write in the I/O page, high RAM or IE.
    pub open spec fn io_written(self, adr: u16, v: u8) -> MmuView {
        if adr == 0xFF00 {
            MmuView { joypad: Joypad { select_map: (v & 0b0011_0000) >> 4u8, ..self.joypad }, ..self }
        } else if is_serial_adr(adr) {
            MmuView { serial: self.serial.written(adr, v), ..self }
        } else if is_timer_adr(adr) {
            MmuView { timer: self.timer.written(adr, v), ..self }
        } else if adr == 0xFF0F {
            MmuView { interrupt_flags: v | 0xE0, ..self }
        } else if adr == 0xFF46 {
            MmuView { dma_cycles_left: (4 * DMA_LENGTH) as u16, dma_start_adr: (v as int * 256) as u16, ..self }
        } else if is_ppu_register(adr) {
            MmuView { ppu: self.ppu.written(adr, v), ..self }
        } else if 0xFF00 <= adr <= 0xFF7F {
            MmuView { iram: self.iram.update(adr - 0xFF00, v), ..self }
        } else if 0xFF80 <= adr <= 0xFFFE {
            MmuView { hram: self.hram.update(adr - 0xFF80, v), ..self }
        } else {
            MmuView { interrupt_enable: v, ..self }
        }
    }

    /// The little-endian word at an address.
    pub open spec fn read_word16(self, adr: u16) -> u16 {
        word(self.read(wrap16(adr + 1)), self.read(adr))
    }

    /// The bus after a little-endian word is written at an address.
    pub open spec fn written_word16(self, adr: u16, v: u16) -> MmuView {
        self.written(adr, (v % 256) as u8).written(wrap16(adr + 1), (v / 256) as u8)
    }

    /// The bus after the pending OAM DMA byte, if any, is copied.
    pub open spec fn dma_step(self) -> MmuView {
        if self.dma_cycles_left > 0 {
            let offset = DMA_LENGTH - self.dma_cycles_left / 4;
            let v = self.read((self.dma_start_adr + offset) as u16);
            MmuView {
                ppu: PpuView { oam: self.ppu.oam.update(offset, v), ..self.ppu },
                dma_cycles_left: (self.dma_cycles_left - 4) as u16,
                ..self
            }
        } else {
            self
        }
    }

    /// The bus after one machine cycle: the DMA byte, then the timer, the PPU,
    /// the serial port and the joypad, their interrupts collected in IF.
    #[verifier::opaque]
    pub open spec fn next(self) -> MmuView {
        let s = self.dma_step();
        let (timer, ti) = s.timer.next();
        let (ppu, pi) = s.ppu.next();
        let (serial, si) = s.serial.next();
        let (joypad, ji) = s.joypad.next();
        MmuView {
            timer,
            ppu,
            serial,
            joypad,
            interrupt_flags: s.interrupt_flags | (ti.mask() | pi | si.mask() | ji),
            ..s
        }
    }

    /// The pending interrupts that are enabled.
    pub open spec fn pending(self) -> u8 {
        self.interrupt_flags & self.interrupt_enable
    }
}

impl MMU {
    pub open spec fn wf(&self) -> bool {
        self@.wf()
    }

    /// A bus over a cartridge image, with every device in its power-on state.
    pub fn new(rom: Vec<u8>) -> (r: MMU)
        ensures
            r.wf(),
            r@.cart.rom == rom@,
            r@.interrupt_flags == 0,
            r@.interrupt_enable == 0,
            r@.dma_cycles_left == 0,
            r@.timer == Timer::new_spec(),
            r@.cart.ext_ram == Seq::new(8192, |i: int| 0u8),
            r@.wram == Seq::new(WRAM_SIZE as nat, |i: int| 0u8),
            r@.hram == Seq::new(HRAM_SIZE as nat, |i: int| 0u8),
            r@.iram == Seq::new(IRAM_SIZE as nat, |i: int| 0u8),
            r@.dma_start_adr == 0,
            r@.serial == Serial::new_spec(),
            r@.joypad == Joypad::new_spec(),
            r@.ppu.control == Control::from_byte(0),
            r@.ppu.lcd_stat == Stat::new_spec(),
            r@.ppu.ly == 0,
            r@.ppu.vram == Seq::new(VRAM_SIZE as nat, |i: int| 0u8),
            r@.ppu.oam == Seq::new(OAM_SIZE as nat, |i: int| 0u8),
    {
        let wram = vec![0u8; WRAM_SIZE];
        let hram = vec![0u8; HRAM_SIZE];
        let iram = vec![0u8; IRAM_SIZE];
        assert(wram@ =~= Seq::new(WRAM_SIZE as nat, |i: int| 0u8));
        assert(hram@ =~= Seq::new(HRAM_SIZE as nat, |i: int| 0u8));
        assert(iram@ =~= Seq::new(IRAM_SIZE as nat, |i: int| 0u8));
        MMU {
            mbc: mbc::load(rom),
            wram,
            hram,
            iram,
            timer: Timer::new(),
            interrupt_flags: 0,
            interrupt_enable: 0,
            dma_cycles_left: 0,
            dma_start_adr: 0,
            ppu: PPU::new(),
            serial: Serial::new(),
            joypad: Joypad::new(),
        }
    }

    pub fn get_interrupts(&self) -> (r: u8)
        ensures
            r == self@.pending(),
    {
        self.interrupt_flags & self.interrupt_enable
    }

    fn start_dma(&mut self, high_adr: u8)
        requires
            old(self).wf(),
        ensures
            final(self).wf(),
            final(self)@ == old(self)@.io_written(0xFF46, high_adr),
    {
        self.dma_cycles_left = DMA_LENGTH * 4;
        self.dma_start_adr = (high_adr as u16) * 256;
    }

    pub fn read_word(&self, adr: u16) -> (r: u8)
        requires
            self.wf(),
        ensures
            r == self@.read(adr),
    {
        reveal(MmuView::read);
        if adr <= 0x7FFF || (0xA000 <= adr && adr <= 0xBFFF) {
            self.mbc.read_word(adr)
        } else if 0x8000 <= adr && adr <= 0x9FFF {
            self.ppu.read_word(adr)
        } else if 0xC000 <= adr && adr <= 0xDFFF {
            self.wram[(adr - 0xC000) as usize]
        } else if 0xE000 <= adr && adr <= 0xFDFF {
            self.wram[(adr - 0xE000) as usize]
        } else if 0xFE00 <= adr && adr <= 0xFE9F {
            self.ppu.read_word(adr)
        } else if 0xFEA0 <= adr && adr <= 0xFEFF {
            0x00
        } else {
            self.read_io(adr)
        }
    }

    fn read_io(&self, adr: u16) -> (r: u8)
        requires
            self.wf(),
            adr >= 0xFF00,
        ensures
            r == self@.read(adr),
    {
        reveal(MmuView::read);
        if adr == 0xFF00 {
            self.joypad.read_word()
        } else if adr == 0xFF01 || adr == 0xFF02 {
            self.serial.read_word(adr)
        } else if 0xFF04 <= adr && adr <= 0xFF07 {
            self.timer.read_word(adr)
        } else if adr == 0xFF0F {
            self.interrupt_flags | 0xE0
        } else if adr == 0xFF46 {
            (self.dma_start_adr / 256) as u8
        } else if 0xFF40 <= adr && adr <= 0xFF4B {
            self.ppu.read_word(adr)
        } else if adr <= 0xFF7F {
            self.iram[(adr - 0xFF00) as usize]
        } else if adr <= 0xFFFE {
            self.hram[(adr - 0xFF80) as usize]
        } else {
            self.interrupt_enable
        }
    }

    /// The little-endian word at an address (the second byte wraps past 0xFFFF).
    pub fn read_dw(&self, adr: u16) -> (r: u16)
        requires
            self.wf(),
        ensures
            r == self@.read_word16(adr),
    {
        let l = self.read_word(adr);
        let h = self.read_word(adr.wrapping_add(1));
        (h as u16) * 256 + l as u16
    }

    pub fn write_word(&mut self, adr: u16, val: u8)
        requires
            old(self).wf(),
        ensures
            final(self).wf(),
            final(self)@ == old(self)@.written(adr, val),
    {
        reveal(MmuView::written);
        if adr <= 0x7FFF || (0xA000 <= adr && adr <= 0xBFFF) {
            self.mbc.write_word(adr, val);
        } else if 0x8000 <= adr && adr <= 0x9FFF {
            self.ppu.write_word(adr, val);
        } else if 0xC000 <= adr && adr <= 0xDFFF {
            self.wram.set((adr - 0xC000) as usize, val);
        } else if 0xE000 <= adr && adr <= 0xFDFF {
            self.wram.set((adr - 0xE000) as usize, val);
        } else if 0xFE00 <= adr && adr <= 0xFE9F {
            self.ppu.write_word(adr, val);
        } else if 0xFEA0 <= adr && adr <= 0xFEFF {
        } else {
            self.write_io(adr, val);
        }
    }

    fn write_io(&mut self, adr: u16, val: u8)
        requires
            old(self).wf(),
            adr >= 0xFF00,
        ensures
            final(self).wf(),
            final(self)@ == old(self)@.io_written(adr, val),
    {
        if adr == 0xFF00 {
            self.joypad.write_word(val);
        } else if adr == 0xFF01 || adr == 0xFF02 {
            self.serial.write_word(adr, val);
        } else if 0xFF04 <= adr && adr <= 0xFF07 {
            self.timer.write_word(adr, val);
        } else if adr == 0xFF0F {
            self.interrupt_flags = val | 0xE0;
        } else if adr == 0xFF46 {
            self.start_dma(val);
        } else if 0xFF40 <= adr && adr <= 0xFF4B {
            self.ppu.write_word(adr, val);
        } else if adr <= 0xFF7F {
            self.iram.set((adr - 0xFF00) as usize, val);
        } else if adr <= 0xFFFE {
            self.hram.set((adr - 0xFF80) as usize, val);
        } else {
            self.interrupt_enable = val;
        }
    }

    /// Writes a word little-endian: low byte first, at `adr`, then the high byte.
    pub fn write_dw(&mut self, adr: u16, val: u16)
        requires
            old(self).wf(),
        ensures
            final(self).wf(),
            final(self)@ == old(self)@.written_word16(adr, val),
    {
        self.write_word(adr, (val % 256) as u8);
        self.write_word(adr.wrapping_add(1), (val / 256) as u8);
    }

    fn dma_tick(&mut self)
        requires
            old(self).wf(),
        ensures
            final(self).wf(),
            final(self)@ == old(self)@.dma_step(),
    {
        if self.dma_cycles_left > 0 {
            let offset = DMA_LENGTH - self.dma_cycles_left / 4;
            let source_adr = self.dma_start_adr + offset;
            let v = self.read_word(source_adr);
            self.ppu.dma_write(offset as usize, v);
            self.dma_cycles_left = self.dma_cycles_left - 4;
        }
    }

    /// Advances every device on the bus by one machine cycle.
    pub fn tick(&mut self)
        requires
            old(self).wf(),
        ensures
            final(self).wf(),
            final(self)@ == old(self)@.next(),
    {
        reveal(MmuView::next);
        self.dma_tick();
        let timer_interrupt = self.timer.tick();
        let ppu_ints = self.ppu.tick();
        let serial_ints = self.serial.tick();
        let joypad_ints = self.joypad.tick();
        self.interrupt_flags = self.interrupt_flags | (timer_interrupt.bits() | ppu_ints
            | serial_ints.bits() | joypad_ints);
    }
}

/// The top three bits of IF always read as set.
pub proof fn lemma_interrupt_flag_high_bits(m: MmuView)
    ensures
        m.read(0xFF0F) & 0xE0 == 0xE0,
{
    reveal(MmuView::read);
    let f = m.interrupt_flags;
    assert((f | 0xE0) & 0xE0 == 0xE0) by (bit_vector);
}

} // verus!
