use vstd::prelude::*;

use std::collections::VecDeque;

use crate::{flag_value, wrap16, wrap8, Interrupt};

verus! {

pub const VRAM_SIZE: usize = 0x2000;
pub const OAM_SIZE: usize = 0xA0;
pub const SCREEN_WIDTH: usize = 160;
pub const SCREEN_HEIGHT: usize = 144;
pub const SCREEN_SIZE: usize = 23040;

/// The LCD control register, bit 7 down to bit 0.
#[derive(Debug, Clone, Copy, PartialEq, Eq)]
pub struct Control {
    pub lcd_en: bool,
    pub win_map: bool,
    pub win_en: bool,
    pub tile_sel: bool,
    pub bg_map: bool,
    pub obj_size: bool,
    pub obj_en: bool,
    pub bg_en: bool,
}

impl Control {
    pub open spec fn read(self) -> u8 {
        (flag_value(self.lcd_en, 128) + flag_value(self.win_map, 64) + flag_value(self.win_en, 32)
            + flag_value(self.tile_sel, 16) + flag_value(self.bg_map, 8) + flag_value(self.obj_size, 4)
            + flag_value(self.obj_en, 2) + flag_value(self.bg_en, 1)) as u8
    }

    #[verifier::opaque]
    pub open spec fn from_byte(v: u8) -> Control {
        Control {
            lcd_en: v / 128 == 1,
            win_map: (v % 128) / 64 == 1,
            win_en: (v % 64) / 32 == 1,
            tile_sel: (v % 32) / 16 == 1,
            bg_map: (v % 16) / 8 == 1,
            obj_size: (v % 8) / 4 == 1,
            obj_en: (v % 4) / 2 == 1,
            bg_en: v % 2 == 1,
        }
    }

    pub fn new() -> (r: Control)
        ensures
            r == Control::from_byte(0),
    {
        reveal(Control::from_byte);
        Control {
            lcd_en: false,
            win_map: false,
            win_en: false,
            tile_sel: false,
            bg_map: false,
            obj_size: false,
            obj_en: false,
            bg_en: false,
        }
    }

    pub fn read_word(&self) -> (r: u8)
        ensures
            r == self.read(),
    {
        let mut flags: u8 = 0;
        if self.lcd_en {
            flags = flags + 0b1000_0000;
        }
        if self.win_map {
            flags = flags + 0b0100_0000;
        }
        if self.win_en {
            flags = flags + 0b0010_0000;
        }
        if self.tile_sel {
            flags = flags + 0b0001_0000;
        }
        if self.bg_map {
            flags = flags + 0b0000_1000;
        }
        if self.obj_size {
            flags = flags + 0b0000_0100;
        }
        if self.obj_en {
            flags = flags + 0b0000_0010;
        }
        if self.bg_en {
            flags = flags + 0b0000_0001;
        }
        flags
    }

    pub fn write_word(&mut self, v: u8)
        ensures
            *final(self) == Control::from_byte(v),
    {
        reveal(Control::from_byte);
        self.lcd_en = v / 128 == 1;
        self.win_map = (v % 128) / 64 == 1;
        self.win_en = (v % 64) / 32 == 1;
        self.tile_sel = (v % 32) / 16 == 1;
        self.bg_map = (v % 16) / 8 == 1;
        self.obj_size = (v % 8) / 4 == 1;
        self.obj_en = (v % 4) / 2 == 1;
        self.bg_en = v % 2 == 1;
    }
}

/// The four LCD modes, with their STAT numbers 0 to 3.
#[derive(Debug, Clone, Copy, PartialEq, Eq, Structural)]
pub enum Mode {
    HBlank,
    VBlank,
    OAM,
    TRANSFER,
}

impl Mode {
    pub open spec fn number(self) -> u8 {
        match self {
            Mode::HBlank => 0,
            Mode::VBlank => 1,
            Mode::OAM => 2,
            Mode::TRANSFER => 3,
        }
    }

    pub fn bits(&self) -> (r: u8)
        ensures
            r == self.number(),
    {
        match self {
            Mode::HBlank => 0,
            Mode::VBlank => 1,
            Mode::OAM => 2,
            Mode::TRANSFER => 3,
        }
    }
}

/// The LCD status register: interrupt sources, coincidence flag and mode.
#[derive(Debug, Clone, Copy, PartialEq, Eq)]
pub struct Stat {
    pub int_lyc: bool,
    pub int_oam: bool,
    pub int_vblank: bool,
    pub int_hblank: bool,
    pub coincidence_flag: bool,
    pub mode: Mode,
}

impl Stat {
    pub open spec fn read(self) -> u8 {
        (128 + flag_value(self.int_lyc, 64) + flag_value(self.int_oam, 32) + flag_value(
            self.int_vblank,
            16,
        ) + flag_value(self.int_hblank, 8) + flag_value(self.coincidence_flag, 4)
            + self.mode.number()) as u8
    }

    /// STAT after a write: only the four interrupt sources are writable.
    #[verifier::opaque]
    pub open spec fn written(self, v: u8) -> Stat {
        Stat {
            int_lyc: (v % 128) / 64 == 1,
            int_oam: (v % 64) / 32 == 1,
            int_vblank: (v % 32) / 16 == 1,
            int_hblank: (v % 16) / 8 == 1,
            ..self
        }
    }

    pub open spec fn new_spec() -> Stat {
        Stat {
            int_lyc: false,
            int_oam: false,
            int_vblank: false,
            int_hblank: false,
            coincidence_flag: false,
            mode: Mode::OAM,
        }
    }

    pub fn new() -> (r: Stat)
        ensures
            r == Stat::new_spec(),
            r == (Stat {
                int_lyc: false,
                int_oam: false,
                int_vblank: false,
                int_hblank: false,
                coincidence_flag: false,
                mode: Mode::OAM,
            }),
    {
        Stat {
            int_lyc: false,
            int_oam: false,
            int_vblank: false,
            int_hblank: false,
            coincidence_flag: false,
            mode: Mode::OAM,
        }
    }

    pub fn write_word(&mut self, v: u8)
        ensures
            *final(self) == old(self).written(v),
    {
        reveal(Stat::written);
        self.int_lyc = (v % 128) / 64 == 1;
        self.int_oam = (v % 64) / 32 == 1;
        self.int_vblank = (v % 32) / 16 == 1;
        self.int_hblank = (v % 16) / 8 == 1;
    }

    pub fn read_word(&self) -> (r: u8)
        ensures
            r == self.read(),
    {
        let mut flags: u8 = 0b1000_0000;
        if self.int_lyc {
            flags = flags + 0b0100_0000;
        }
        if self.int_oam {
            flags = flags + 0b0010_0000;
        }
        if self.int_vblank {
            flags = flags + 0b0001_0000;
        }
        if self.int_hblank {
            flags = flags + 0b0000_1000;
        }
        if self.coincidence_flag {
            flags = flags + 0b0000_0100;
        }
        flags + self.mode.bits()
    }
}


/// The colour number (0 to 3) of pixel `x` of a tile row: the bit of the
/// second byte is the high bit, the bit of the first byte the low one.
pub open spec fn color_index(first: u8, second: u8, x: u8) -> u8 {
    let s = (7 - x) as u8;
    (((second >> s) & 1) << 1u8) | ((first >> s) & 1)
}

/// The shade that a palette gives a colour number.
pub open spec fn palette_shade(bgp: u8, c: u8) -> u8 {
    (bgp >> ((c * 2) as u8)) & 3
}

/// The eight shades of a tile row.
pub open spec fn row_shades(first: u8, second: u8, bgp: u8) -> Seq<u8> {
    Seq::new(8, |x: int| palette_shade(bgp, color_index(first, second, x as u8)))
}

/// The offset in VRAM of a tile's pattern row. With `tile_sel` the tiles sit
/// at 0x0000 indexed without sign; without it, tiles 0..0x7F sit at 0x1000
/// and tiles 0x80..0xFF at 0x0800.
pub open spec fn tile_data_adr(tile_index: u8, tile_sel: bool, y_offset: u8) -> int {
    (if tile_sel {
        tile_index * 16
    } else if tile_index < 0x80 {
        0x1000 + tile_index * 16
    } else {
        0x800 + (tile_index - 0x80) * 16
    }) + y_offset
}

/// The offset in VRAM of the background map entry for the pixel at (x, y).
pub open spec fn tile_map_start(bg_map: bool, x: u8, y: u8) -> int {
    (if bg_map { 0x1C00int } else { 0x1800int }) + (y / 8) * 32 + x / 8
}

#[derive(Debug, Clone, Copy, PartialEq, Eq, Structural)]
pub enum FetcherStates {
    TileIndex,
    HighByte,
    LowByte,
    Idle,
}

/// The background fetcher: reads a map entry, then the two pattern bytes,
/// then hands eight shaded pixels to the FIFO.
pub struct Fetcher {
    pub tile_index: u8,
    pub tile_map_adr: usize,
    pub high_byte: u8,
    pub low_byte: u8,
    pub pixel_row: Vec<u8>,
    pub state: FetcherStates,
    pub y_offset: u8,
}

pub struct FetcherView {
    pub tile_index: u8,
    pub tile_map_adr: usize,
    pub high_byte: u8,
    pub low_byte: u8,
    pub pixel_row: Seq<u8>,
    pub state: FetcherStates,
    pub y_offset: u8,
}

impl View for Fetcher {
    type V = FetcherView;

    open spec fn view(&self) -> FetcherView {
        FetcherView {
            tile_index: self.tile_index,
            tile_map_adr: self.tile_map_adr,
            high_byte: self.high_byte,
            low_byte: self.low_byte,
            pixel_row: self.pixel_row@,
            state: self.state,
            y_offset: self.y_offset,
        }
    }
}

impl FetcherView {
    pub open spec fn wf(self) -> bool {
        self.tile_map_adr < VRAM_SIZE && self.pixel_row.len() == 8
    }

    /// The fetcher pointed at the start of a line.
    pub open spec fn reset(self, bg_map: bool, x: u8, y: u8) -> FetcherView {
        FetcherView {
            tile_map_adr: tile_map_start(bg_map, x, y) as usize,
            state: FetcherStates::TileIndex,
            y_offset: ((y % 8) * 2) as u8,
            ..self
        }
    }

    /// The fetcher after handing its row to the FIFO, and the FIFO's queue.
    pub open spec fn flushed(self, queue: Seq<u8>) -> (FetcherView, Seq<u8>) {
        (
            FetcherView {
                tile_map_adr: ((self.tile_map_adr + 1) % (VRAM_SIZE as int)) as usize,
                state: FetcherStates::TileIndex,
                ..self
            },
            queue + self.pixel_row,
        )
    }

    /// One step of the fetcher (two clocks) against VRAM and the FIFO's queue.
    pub open spec fn next(self, vram: Seq<u8>, tile_sel: bool, bgp: u8, queue: Seq<u8>) -> (
        FetcherView,
        Seq<u8>,
    ) {
        match self.state {
            FetcherStates::TileIndex => (
                FetcherView {
                    tile_index: vram[self.tile_map_adr as int],
                    state: FetcherStates::HighByte,
                    ..self
                },
                queue,
            ),
            FetcherStates::HighByte => (
                FetcherView {
                    high_byte: vram[tile_data_adr(self.tile_index, tile_sel, self.y_offset)],
                    state: FetcherStates::LowByte,
                    ..self
                },
                queue,
            ),
            FetcherStates::LowByte => {
                let low = vram[tile_data_adr(self.tile_index, tile_sel, self.y_offset) + 1];
                let merged = FetcherView {
                    low_byte: low,
                    pixel_row: row_shades(self.high_byte, low, bgp),
                    ..self
                };
                if queue.len() <= 8 {
                    merged.flushed(queue)
                } else {
                    (FetcherView { state: FetcherStates::Idle, ..merged }, queue)
                }
            },
            FetcherStates::Idle => if queue.len() <= 8 {
                self.flushed(queue)
            } else {
                (self, queue)
            },
        }
    }
}

/// The shade of pixel `x` of the row made of `first` and `second`.
fn pixel_shade(first: u8, second: u8, bgp: u8, x: u8) -> (r: u8)
    requires
        x < 8,
    ensures
        r == palette_shade(bgp, color_index(first, second, x)),
{
    let s = 7 - x;
    let c: u8 = (((second >> s) & 1) << 1u8) | ((first >> s) & 1);
    assert(c < 4) by (bit_vector)
        requires
            c == (((second >> s) & 1) << 1u8) | ((first >> s) & 1),
    ;
    (bgp >> (c * 2)) & 3
}

impl Fetcher {
    pub open spec fn wf(&self) -> bool {
        self@.wf()
    }

    pub open spec fn new_spec() -> FetcherView {
        FetcherView {
            tile_index: 0,
            tile_map_adr: 0,
            high_byte: 0,
            low_byte: 0,
            pixel_row: Seq::new(8, |i: int| 0u8),
            state: FetcherStates::TileIndex,
            y_offset: 0,
        }
    }

    pub fn new() -> (r: Fetcher)
        ensures
            r.wf(),
            r@ == Fetcher::new_spec(),
    {
        let pixel_row = vec![0u8; 8];
        assert(pixel_row@ =~= Seq::new(8, |i: int| 0u8));
        Fetcher {
            tile_index: 0,
            tile_map_adr: 0,
            high_byte: 0,
            low_byte: 0,
            pixel_row,
            state: FetcherStates::TileIndex,
            y_offset: 0,
        }
    }

    /// Shades the eight pixels of the current pattern bytes.
    fn merge_bytes(&mut self, bgp: u8)
        requires
            old(self).wf(),
        ensures
            final(self).wf(),
            final(self)@ == (FetcherView {
                pixel_row: row_shades(old(self).high_byte, old(self).low_byte, bgp),
                ..old(self)@
            }),
    {
        let h = self.high_byte;
        let l = self.low_byte;
        let mut row: Vec<u8> = Vec::new();
        let mut x: u8 = 0;
        while x < 8
            invariant
                x <= 8,
                row@ =~= Seq::new(x as nat, |i: int| palette_shade(bgp, color_index(h, l, i as u8))),
            decreases 8 - x,
        {
            row.push(pixel_shade(h, l, bgp, x));
            x = x + 1;
        }
        assert(row@ =~= row_shades(h, l, bgp));
        self.pixel_row = row;
    }

    /// Hands the current row to the FIFO and moves to the next map entry.
    fn flush_row(&mut self, fifo: &mut PixelFifo)
        requires
            old(self).wf(),
        ensures
            final(self).wf(),
            (final(self)@, final(fifo)@.queue) == old(self)@.flushed(old(fifo)@.queue),
            final(fifo)@ == (FifoView { queue: final(fifo)@.queue, ..old(fifo)@ }),
    {
        let mut i: usize = 0;
        while i < 8
            invariant
                self.wf(),
                self@ == old(self)@,
                i <= 8,
                fifo@ == (FifoView {
                    queue: old(fifo)@.queue + self.pixel_row@.subrange(0, i as int),
                    ..old(fifo)@
                }),
            decreases 8 - i,
        {
            fifo.push(self.pixel_row[i]);
            proof {
                assert(self.pixel_row@.subrange(0, i + 1) =~= self.pixel_row@.subrange(0, i as int).push(
                    self.pixel_row@[i as int],
                ));
            }
            i = i + 1;
        }
        assert(self.pixel_row@.subrange(0, 8) =~= self.pixel_row@);
        self.tile_map_adr = (self.tile_map_adr + 1) % VRAM_SIZE;
        self.state = FetcherStates::TileIndex;
    }

    /// Points the fetcher at the map entry of the pixel at (x, y).
    pub fn reset(&mut self, bg_map: bool, x: u8, y: u8)
        requires
            old(self).wf(),
        ensures
            final(self).wf(),
            final(self)@ == old(self)@.reset(bg_map, x, y),
    {
        let base_adr: usize = if bg_map {
            0x1C00
        } else {
            0x1800
        };
        self.tile_map_adr = base_adr + (y as usize / 8 * 32) + x as usize / 8;
        self.state = FetcherStates::TileIndex;
        self.y_offset = y % 8 * 2;
    }

    fn get_tile_adr(&self, tile_sel: bool) -> (r: usize)
        ensures
            r == tile_data_adr(self.tile_index, tile_sel, self.y_offset),
            r < 0x1900,
    {
        let tile_index = self.tile_index as usize;
        let adr = if tile_sel {
            tile_index * 16
        } else if tile_index < 0x80 {
            0x1000 + tile_index * 16
        } else {
            0x800 + (tile_index - 0x80) * 16
        };
        adr + self.y_offset as usize
    }

    /// One step of the fetcher (two clocks).
    pub fn tick(&mut self, vram: &Vec<u8>, tile_sel: bool, bgp: u8, pixel_fifo: &mut PixelFifo)
        requires
            old(self).wf(),
            vram@.len() == VRAM_SIZE,
        ensures
            final(self).wf(),
            (final(self)@, final(pixel_fifo)@.queue) == old(self)@.next(
                vram@,
                tile_sel,
                bgp,
                old(pixel_fifo)@.queue,
            ),
            final(pixel_fifo)@ == (FifoView { queue: final(pixel_fifo)@.queue, ..old(pixel_fifo)@ }),
    {
        match self.state {
            FetcherStates::TileIndex => {
                self.tile_index = vram[self.tile_map_adr];
                self.state = FetcherStates::HighByte;
            },
            FetcherStates::HighByte => {
                let adr = self.get_tile_adr(tile_sel);
                self.high_byte = vram[adr];
                self.state = FetcherStates::LowByte;
            },
            FetcherStates::LowByte => {
                let adr = self.get_tile_adr(tile_sel);
                self.low_byte = vram[adr + 1];
                self.merge_bytes(bgp);
                if !pixel_fifo.is_ready() {
                    self.flush_row(pixel_fifo);
                } else {
                    self.state = FetcherStates::Idle;
                }
            },
            FetcherStates::Idle => {
                if !pixel_fifo.is_ready() {
                    self.flush_row(pixel_fifo);
                }
            },
        }
    }
}

/// The pixel FIFO and the screen it shifts pixels onto, row-major, one shade
/// per byte.
pub struct PixelFifo {
    pub queue: VecDeque<u8>,
    pub screen: Vec<u8>,
    pub x: usize,
    pub scx: u8,
}

pub struct FifoView {
    pub queue: Seq<u8>,
    pub screen: Seq<u8>,
    pub x: usize,
    pub scx: u8,
}

impl View for PixelFifo {
    type V = FifoView;

    open spec fn view(&self) -> FifoView {
        FifoView { queue: self.queue@, screen: self.screen@, x: self.x, scx: self.scx }
    }
}

impl FifoView {
    pub open spec fn wf(self) -> bool {
        self.screen.len() == SCREEN_SIZE && self.x <= SCREEN_WIDTH
    }

    /// The FIFO at the start of a line, with the fine scroll to discard.
    pub open spec fn reset(self, scx: u8) -> FifoView {
        FifoView { queue: Seq::empty(), scx: scx % 8, x: 0, ..self }
    }

    /// One pixel clock on line `y`: with more than eight pixels queued, the
    /// first is shifted out and either discarded (fine scroll) or drawn.
    pub open spec fn next(self, y: u8) -> FifoView {
        if self.x < SCREEN_WIDTH && self.queue.len() > 8 {
            let v = self.queue[0];
            let rest = self.queue.subrange(1, self.queue.len() as int);
            if self.scx > 0 {
                FifoView { queue: rest, scx: (self.scx - 1) as u8, ..self }
            } else {
                FifoView {
                    queue: rest,
                    screen: if y < SCREEN_HEIGHT {
                        self.screen.update(y * SCREEN_WIDTH + self.x, v)
                    } else {
                        self.screen
                    },
                    x: (self.x + 1) as usize,
                    ..self
                }
            }
        } else {
            self
        }
    }
}

impl PixelFifo {
    pub open spec fn wf(&self) -> bool {
        self@.wf()
    }

    pub open spec fn new_spec() -> FifoView {
        FifoView {
            queue: Seq::empty(),
            screen: Seq::new(SCREEN_SIZE as nat, |i: int| 0u8),
            x: 0,
            scx: 0,
        }
    }

    pub fn new() -> (r: PixelFifo)
        ensures
            r.wf(),
            r@ == PixelFifo::new_spec(),
    {
        let screen = vec![0u8; SCREEN_SIZE];
        assert(screen@ =~= Seq::new(SCREEN_SIZE as nat, |i: int| 0u8));
        PixelFifo { queue: VecDeque::new(), screen, x: 0, scx: 0 }
    }

    pub fn is_ready(&self) -> (r: bool)
        ensures
            r == (self@.queue.len() > 8),
    {
        self.queue.len() > 8
    }

    pub fn push(&mut self, v: u8)
        ensures
            final(self)@ == (FifoView { queue: old(self)@.queue.push(v), ..old(self)@ }),
    {
        self.queue.push_back(v);
    }

    pub fn pop(&mut self) -> (r: Option<u8>)
        ensures
            old(self)@.queue.len() == 0 ==> r.is_none() && final(self)@ == old(self)@,
            old(self)@.queue.len() > 0 ==> r == Some(old(self)@.queue[0]) && final(self)@ == (
            FifoView {
                queue: old(self)@.queue.subrange(1, old(self)@.queue.len() as int),
                ..old(self)@
            }),
    {
        self.queue.pop_front()
    }

    fn reset(&mut self, scx: u8)
        requires
            old(self).wf(),
        ensures
            final(self).wf(),
            final(self)@ == old(self)@.reset(scx),
    {
        self.queue.clear();
        self.scx = scx % 8;
        self.x = 0;
        assert(self.queue@ =~= Seq::empty());
    }

    fn row_is_done(&self) -> (r: bool)
        ensures
            r == (self.x == SCREEN_WIDTH),
    {
        self.x == SCREEN_WIDTH
    }

    fn empty_queue(&mut self)
        ensures
            final(self)@ == (FifoView { queue: Seq::empty(), ..old(self)@ }),
    {
        self.queue.clear();
        assert(self.queue@ =~= Seq::empty());
    }

    /// One pixel clock on line `y`.
    pub fn tick(&mut self, y: u8)
        requires
            old(self).wf(),
        ensures
            final(self).wf(),
            final(self)@ == old(self)@.next(y),
    {
        if self.x < SCREEN_WIDTH && self.is_ready() {
            let popped = self.pop();
            if let Some(v) = popped {
                if self.scx > 0 {
                    self.scx = self.scx - 1;
                } else {
                    if (y as usize) < SCREEN_HEIGHT {
                        self.screen.set(y as usize * SCREEN_WIDTH + self.x, v);
                    }
                    self.x = self.x + 1;
                }
            }
        }
    }
}


/// The picture processor: LCD registers, video memory and the scanline state
/// machine. `frame_ready` is set when a finished frame waits to be taken.
pub struct PPU {
    pub control: Control,
    pub lcd_stat: Stat,
    pub scy: u8,
    pub scx: u8,
    pub ly: u8,
    pub lyc: u8,
    pub wy: u8,
    pub wx: u8,
    pub bgp: u8,
    pub obp0: u8,
    pub obp1: u8,
    pub vram: Vec<u8>,
    pub oam: Vec<u8>,
    pub cycles_elapsed: u16,
    pub pixel_fifo: PixelFifo,
    pub fetcher: Fetcher,
    pub is_state_enter: bool,
    pub frame_ready: bool,
}

pub struct PpuView {
    pub control: Control,
    pub lcd_stat: Stat,
    pub scy: u8,
    pub scx: u8,
    pub ly: u8,
    pub lyc: u8,
    pub wy: u8,
    pub wx: u8,
    pub bgp: u8,
    pub obp0: u8,
    pub obp1: u8,
    pub vram: Seq<u8>,
    pub oam: Seq<u8>,
    pub cycles_elapsed: u16,
    pub fifo: FifoView,
    pub fetcher: FetcherView,
    pub is_state_enter: bool,
    pub frame_ready: bool,
}

impl View for PPU {
    type V = PpuView;

    open spec fn view(&self) -> PpuView {
        PpuView {
            control: self.control,
            lcd_stat: self.lcd_stat,
            scy: self.scy,
            scx: self.scx,
            ly: self.ly,
            lyc: self.lyc,
            wy: self.wy,
            wx: self.wx,
            bgp: self.bgp,
            obp0: self.obp0,
            obp1: self.obp1,
            vram: self.vram@,
            oam: self.oam@,
            cycles_elapsed: self.cycles_elapsed,
            fifo: self.pixel_fifo@,
            fetcher: self.fetcher@,
            is_state_enter: self.is_state_enter,
            frame_ready: self.frame_ready,
        }
    }
}

/// Whether the PPU answers at an address: VRAM, OAM, or 0xFF40..0xFF4B.
pub open spec fn is_ppu_adr(adr: u16) -> bool {
    (0x8000 <= adr <= 0x9FFF) || (0xFE00 <= adr <= 0xFE9F) || (0xFF40 <= adr <= 0xFF4B)
}

impl PpuView {
    pub open spec fn wf(self) -> bool {
        &&& self.vram.len() == VRAM_SIZE
        &&& self.oam.len() == OAM_SIZE
        &&& self.fifo.wf()
        &&& self.fetcher.wf()
    }

    pub open spec fn vram_open(self) -> bool {
        self.lcd_stat.mode != Mode::TRANSFER || !self.control.lcd_en
    }

    pub open spec fn oam_open(self) -> bool {
        (self.lcd_stat.mode != Mode::TRANSFER && self.lcd_stat.mode != Mode::OAM)
            || !self.control.lcd_en
    }

    /// The byte read at a PPU address. VRAM reads 0xFF during pixel transfer,
    /// OAM during OAM scan and pixel transfer, while the LCD is on.
    pub open spec fn read(self, adr: u16) -> u8 {
        if 0x8000 <= adr <= 0x9FFF {
            if self.vram_open() {
                self.vram[adr - 0x8000]
            } else {
                0xFF
            }
        } else if 0xFE00 <= adr <= 0xFE9F {
            if self.oam_open() {
                self.oam[adr - 0xFE00]
            } else {
                0xFF
            }
        } else if adr == 0xFF40 {
            self.control.read()
        } else if adr == 0xFF41 {
            self.lcd_stat.read()
        } else if adr == 0xFF42 {
            self.scy
        } else if adr == 0xFF43 {
            self.scx
        } else if adr == 0xFF44 {
            self.ly
        } else if adr == 0xFF45 {
            self.lyc
        } else if adr == 0xFF47 {
            self.bgp
        } else if adr == 0xFF48 {
            self.obp0
        } else if adr == 0xFF49 {
            self.obp1
        } else if adr == 0xFF4A {
            self.wy
        } else if adr == 0xFF4B {
            self.wx
        } else {
            0xFF
        }
    }

    /// The PPU after a byte is written at one of its addresses. Blocked VRAM
    /// and OAM writes and writes to LY are dropped.
    pub open spec fn written(self, adr: u16, v: u8) -> PpuView {
        if 0x8000 <= adr <= 0x9FFF {
            if self.vram_open() {
                PpuView { vram: self.vram.update(adr - 0x8000, v), ..self }
            } else {
                self
            }
        } else if 0xFE00 <= adr <= 0xFE9F {
            if self.oam_open() {
                PpuView { oam: self.oam.update(adr - 0xFE00, v), ..self }
            } else {
                self
            }
        } else {
            self.register_written(adr, v)
        }
    }

    /// The PPU with the LCD just switched off: LY at 0 and the line restarted,
    /// so that switching it on again begins with the OAM scan of line 0.
    pub open spec fn switched_off(self) -> PpuView {
        PpuView {
            ly: 0,
            cycles_elapsed: 0,
            is_state_enter: false,
            lcd_stat: Stat { mode: Mode::OAM, ..self.lcd_stat },
            ..self
        }
    }

    /// The PPU after a write to one of its registers at 0xFF40..0xFF4B. A
    /// write to LCDC with bit 7 clear switches the LCD off.
    pub open spec fn register_written(self, adr: u16, v: u8) -> PpuView {
        let s = self.registers_stored(adr, v);
        if adr == 0xFF40 && v < 128 {
            s.switched_off()
        } else {
            s
        }
    }

    /// The PPU with the written byte stored in its register.
    pub open spec fn registers_stored(self, adr: u16, v: u8) -> PpuView {
        PpuView {
            control: if adr == 0xFF40 { Control::from_byte(v) } else { self.control },
            lcd_stat: if adr == 0xFF41 { self.lcd_stat.written(v) } else { self.lcd_stat },
            scy: if adr == 0xFF42 { v } else { self.scy },
            scx: if adr == 0xFF43 { v } else { self.scx },
            lyc: if adr == 0xFF45 { v } else { self.lyc },
            bgp: if adr == 0xFF47 { v } else { self.bgp },
            obp0: if adr == 0xFF48 { v } else { self.obp0 },
            obp1: if adr == 0xFF49 { v } else { self.obp1 },
            wy: if adr == 0xFF4A { v } else { self.wy },
            wx: if adr == 0xFF4B { v } else { self.wx },
            ..self
        }
    }

    /// The PPU switched to a mode, marked as just entered.
    pub open spec fn entering(self, mode: Mode) -> PpuView {
        PpuView { is_state_enter: true, lcd_stat: Stat { mode, ..self.lcd_stat }, ..self }
    }

    /// Pixel transfer for one machine cycle: two fetcher steps and four pixel clocks.
    pub open spec fn transfer_step(self) -> PpuView {
        let (f1, q1) = self.fetcher.next(self.vram, self.control.tile_sel, self.bgp, self.fifo.queue);
        let (f2, q2) = f1.next(self.vram, self.control.tile_sel, self.bgp, q1);
        let fifo = FifoView { queue: q2, ..self.fifo }.next(self.ly).next(self.ly).next(
            self.ly,
        ).next(self.ly);
        PpuView { fetcher: f2, fifo, ..self }
    }

    /// The mode machine's work for one machine cycle, once the clock count has
    /// advanced, with the interrupt bits it raises.
    #[verifier::opaque]
    pub open spec fn mode_step(self) -> (PpuView, u8) {
        let enter = self.is_state_enter;
        let s = PpuView { is_state_enter: false, ..self };
        match self.lcd_stat.mode {
            Mode::OAM => if enter && s.lcd_stat.int_oam {
                (s, Interrupt::LCDStat.mask())
            } else if s.cycles_elapsed == 80 {
                (s.entering(Mode::TRANSFER), 0)
            } else {
                (s, 0)
            },
            Mode::TRANSFER => {
                let s1 = if enter {
                    PpuView {
                        fetcher: s.fetcher.reset(s.control.bg_map, s.scx, s.ly),
                        fifo: s.fifo.reset(s.scx),
                        ..s
                    }
                } else {
                    s
                };
                let s2 = s1.transfer_step();
                if s2.fifo.x == SCREEN_WIDTH {
                    (
                        PpuView {
                            fifo: FifoView { queue: Seq::empty(), ..s2.fifo },
                            ly: wrap8(s2.ly + 1),
                            ..s2
                        }.entering(Mode::HBlank),
                        0,
                    )
                } else {
                    (s2, 0)
                }
            },
            Mode::HBlank => if enter && s.lcd_stat.int_hblank {
                (s, Interrupt::LCDStat.mask())
            } else if s.cycles_elapsed == 456 {
                (
                    PpuView { cycles_elapsed: 0, ..s }.entering(
                        if s.ly == 144 {
                            Mode::VBlank
                        } else {
                            Mode::OAM
                        },
                    ),
                    0,
                )
            } else {
                (s, 0)
            },
            Mode::VBlank => if enter {
                (
                    PpuView { frame_ready: true, ..s },
                    Interrupt::VBLANK.mask() | if s.lcd_stat.int_vblank || s.lcd_stat.int_oam {
                        Interrupt::LCDStat.mask()
                    } else {
                        0
                    },
                )
            } else if s.cycles_elapsed % 456 == 0 {
                let ly = wrap8(s.ly + 1);
                if ly == 154 {
                    (PpuView { ly: 0, cycles_elapsed: 0, ..s }.entering(Mode::OAM), 0)
                } else {
                    (PpuView { ly, ..s }, 0)
                }
            } else {
                (s, 0)
            },
        }
    }

    /// The PPU after one machine cycle (four clocks), with the interrupt bits
    /// it raises. With the LCD off nothing moves.
    pub open spec fn next(self) -> (PpuView, u8) {
        if !self.control.lcd_en {
            (self, 0)
        } else {
            let s0 = PpuView { cycles_elapsed: wrap16(self.cycles_elapsed + 4), ..self };
            let (s1, interrupt) = s0.mode_step();
            let coincidence = s1.ly == s1.lyc;
            let s2 = PpuView {
                lcd_stat: Stat { coincidence_flag: coincidence, ..s1.lcd_stat },
                ..s1
            };
            (s2, if s2.lcd_stat.int_lyc && coincidence {
                interrupt | Interrupt::LCDStat.mask()
            } else {
                interrupt
            })
        }
    }
}

impl PPU {
    pub open spec fn wf(&self) -> bool {
        self@.wf()
    }

    pub fn new() -> (r: PPU)
        ensures
            r.wf(),
            r@.control == Control::from_byte(0),
            r@.lcd_stat.mode == Mode::OAM,
            r@.ly == 0,
            r@.cycles_elapsed == 0,
            r@.lcd_stat == Stat::new_spec(),
            r@.scy == 0 && r@.scx == 0 && r@.lyc == 0 && r@.wy == 0 && r@.wx == 0,
            r@.bgp == 0 && r@.obp0 == 0 && r@.obp1 == 0,
            r@.vram == Seq::new(VRAM_SIZE as nat, |i: int| 0u8),
            r@.oam == Seq::new(OAM_SIZE as nat, |i: int| 0u8),
            r@.fifo == PixelFifo::new_spec(),
            r@.fetcher == Fetcher::new_spec(),
            !r@.is_state_enter,
            !r@.frame_ready,
    {
        let vram = vec![0u8; VRAM_SIZE];
        let oam = vec![0u8; OAM_SIZE];
        assert(vram@ =~= Seq::new(VRAM_SIZE as nat, |i: int| 0u8));
        assert(oam@ =~= Seq::new(OAM_SIZE as nat, |i: int| 0u8));
        PPU {
            control: Control::new(),
            lcd_stat: Stat::new(),
            scy: 0,
            scx: 0,
            ly: 0,
            lyc: 0,
            wy: 0,
            wx: 0,
            bgp: 0,
            obp0: 0,
            obp1: 0,
            vram,
            oam,
            cycles_elapsed: 0,
            pixel_fifo: PixelFifo::new(),
            fetcher: Fetcher::new(),
            is_state_enter: false,
            frame_ready: false,
        }
    }

    fn set_next_state(&mut self, state: Mode)
        ensures
            final(self)@ == old(self)@.entering(state),
            final(self).wf() == old(self).wf(),
    {
        self.is_state_enter = true;
        self.lcd_stat.mode = state;
    }

    /// Whether the current mode was just entered; clears the mark.
    fn is_state_enter(&mut self) -> (r: bool)
        ensures
            r == old(self).is_state_enter,
            final(self)@ == (PpuView { is_state_enter: false, ..old(self)@ }),
    {
        let res = self.is_state_enter;
        self.is_state_enter = false;
        res
    }

    /// One machine cycle of pixel transfer.
    fn transfer(&mut self)
        requires
            old(self).wf(),
        ensures
            final(self).wf(),
            final(self)@ == old(self)@.transfer_step(),
    {
        self.fetcher.tick(&self.vram, self.control.tile_sel, self.bgp, &mut self.pixel_fifo);
        self.fetcher.tick(&self.vram, self.control.tile_sel, self.bgp, &mut self.pixel_fifo);
        self.pixel_fifo.tick(self.ly);
        self.pixel_fifo.tick(self.ly);
        self.pixel_fifo.tick(self.ly);
        self.pixel_fifo.tick(self.ly);
    }

    fn oam_tick(&mut self) -> (r: u8)
        requires
            old(self).wf(),
            old(self)@.lcd_stat.mode == Mode::OAM,
        ensures
            final(self).wf(),
            (final(self)@, r) == old(self)@.mode_step(),
    {
        reveal(PpuView::mode_step);
        if self.is_state_enter() && self.lcd_stat.int_oam {
            return Interrupt::LCDStat.bits();
        } else if self.cycles_elapsed == 80 {
            self.set_next_state(Mode::TRANSFER);
        }
        0
    }

    fn transfer_tick(&mut self) -> (r: u8)
        requires
            old(self).wf(),
            old(self)@.lcd_stat.mode == Mode::TRANSFER,
        ensures
            final(self).wf(),
            (final(self)@, r) == old(self)@.mode_step(),
    {
        reveal(PpuView::mode_step);
        if self.is_state_enter() {
            self.fetcher.reset(self.control.bg_map, self.scx, self.ly);
            self.pixel_fifo.reset(self.scx);
        }
        self.transfer();
        if self.pixel_fifo.row_is_done() {
            self.pixel_fifo.empty_queue();
            self.ly = self.ly.wrapping_add(1);
            self.set_next_state(Mode::HBlank);
        }
        0
    }

    fn hblank_tick(&mut self) -> (r: u8)
        requires
            old(self).wf(),
            old(self)@.lcd_stat.mode == Mode::HBlank,
        ensures
            final(self).wf(),
            (final(self)@, r) == old(self)@.mode_step(),
    {
        reveal(PpuView::mode_step);
        if self.is_state_enter() && self.lcd_stat.int_hblank {
            return Interrupt::LCDStat.bits();
        } else if self.cycles_elapsed == 456 {
            self.cycles_elapsed = 0;
            let next = if self.ly == 144 {
                Mode::VBlank
            } else {
                Mode::OAM
            };
            self.set_next_state(next);
        }
        0
    }

    fn vblank_tick(&mut self) -> (r: u8)
        requires
            old(self).wf(),
            old(self)@.lcd_stat.mode == Mode::VBlank,
        ensures
            final(self).wf(),
            (final(self)@, r) == old(self)@.mode_step(),
    {
        reveal(PpuView::mode_step);
        let mut interrupt: u8 = 0;
        if self.is_state_enter() {
            self.frame_ready = true;
            interrupt = Interrupt::VBLANK.bits();
            if self.lcd_stat.int_vblank || self.lcd_stat.int_oam {
                interrupt = interrupt | Interrupt::LCDStat.bits();
            } else {
                assert(interrupt | 0 == interrupt) by (bit_vector);
            }
        } else if self.cycles_elapsed % 456 == 0 {
            self.ly = self.ly.wrapping_add(1);
            if self.ly == 154 {
                self.ly = 0;
                self.cycles_elapsed = 0;
                self.set_next_state(Mode::OAM);
            }
        }
        interrupt
    }

    fn mode_tick(&mut self) -> (r: u8)
        requires
            old(self).wf(),
        ensures
            final(self).wf(),
            (final(self)@, r) == old(self)@.mode_step(),
    {
        match self.lcd_stat.mode {
            Mode::OAM => self.oam_tick(),
            Mode::TRANSFER => self.transfer_tick(),
            Mode::HBlank => self.hblank_tick(),
            Mode::VBlank => self.vblank_tick(),
        }
    }

    /// Advances the PPU by one machine cycle and returns the interrupt bits raised.
    pub fn tick(&mut self) -> (r: u8)
        requires
            old(self).wf(),
        ensures
            final(self).wf(),
            (final(self)@, r) == old(self)@.next(),
    {
        if !self.control.lcd_en {
            return Interrupt::NoInterrupt.bits();
        }
        self.cycles_elapsed = self.cycles_elapsed.wrapping_add(4);
        let mut interrupt = self.mode_tick();
        self.lcd_stat.coincidence_flag = self.ly == self.lyc;
        if self.lcd_stat.int_lyc && self.lcd_stat.coincidence_flag {
            interrupt = interrupt | Interrupt::LCDStat.bits();
        }
        interrupt
    }

    pub fn read_word(&self, adr: u16) -> (r: u8)
        requires
            self.wf(),
        ensures
            r == self@.read(adr),
    {
        if 0x8000 <= adr && adr <= 0x9FFF {
            if self.lcd_stat.mode != Mode::TRANSFER || !self.control.lcd_en {
                self.vram[(adr - 0x8000) as usize]
            } else {
                0xFF
            }
        } else if 0xFE00 <= adr && adr <= 0xFE9F {
            if (self.lcd_stat.mode != Mode::TRANSFER && self.lcd_stat.mode != Mode::OAM)
                || !self.control.lcd_en {
                self.oam[(adr - 0xFE00) as usize]
            } else {
                0xFF
            }
        } else {
            match adr {
                0xFF40 => self.control.read_word(),
                0xFF41 => self.lcd_stat.read_word(),
                0xFF42 => self.scy,
                0xFF43 => self.scx,
                0xFF44 => self.ly,
                0xFF45 => self.lyc,
                0xFF47 => self.bgp,
                0xFF48 => self.obp0,
                0xFF49 => self.obp1,
                0xFF4A => self.wy,
                0xFF4B => self.wx,
                _ => 0xFF,
            }
        }
    }

    pub fn write_word(&mut self, adr: u16, v: u8)
        requires
            old(self).wf(),
        ensures
            final(self).wf(),
            final(self)@ == old(self)@.written(adr, v),
    {
        if 0x8000 <= adr && adr <= 0x9FFF {
            if self.lcd_stat.mode != Mode::TRANSFER || !self.control.lcd_en {
                self.vram.set((adr - 0x8000) as usize, v);
            }
        } else if 0xFE00 <= adr && adr <= 0xFE9F {
            if (self.lcd_stat.mode != Mode::TRANSFER && self.lcd_stat.mode != Mode::OAM)
                || !self.control.lcd_en {
                self.oam.set((adr - 0xFE00) as usize, v);
            }
        } else {
            self.write_register(adr, v);
        }
    }

    fn write_register(&mut self, adr: u16, v: u8)
        requires
            old(self).wf(),
        ensures
            final(self).wf(),
            final(self)@ == old(self)@.register_written(adr, v),
    {
        self.store_register(adr, v);
        if adr == 0xFF40 && v < 128 {
            self.ly = 0;
            self.cycles_elapsed = 0;
            self.is_state_enter = false;
            self.lcd_stat.mode = Mode::OAM;
        }
    }

    fn store_register(&mut self, adr: u16, v: u8)
        requires
            old(self).wf(),
        ensures
            final(self).wf(),
            final(self)@ == old(self)@.registers_stored(adr, v),
    {
        let ghost pre = self@;
        if adr == 0xFF40 {
            let mut control = self.control;
            control.write_word(v);
            self.control = control;
        }
        if adr == 0xFF41 {
            let mut stat = self.lcd_stat;
            stat.write_word(v);
            self.lcd_stat = stat;
        }
        if adr == 0xFF42 {
            self.scy = v;
        }
        assert(self@ == (PpuView {
            control: if adr == 0xFF40 { Control::from_byte(v) } else { pre.control },
            lcd_stat: if adr == 0xFF41 { pre.lcd_stat.written(v) } else { pre.lcd_stat },
            scy: if adr == 0xFF42 { v } else { pre.scy },
            ..pre
        }));
        let ghost mid = self@;
        if adr == 0xFF43 {
            self.scx = v;
        }
        if adr == 0xFF45 {
            self.lyc = v;
        }
        if adr == 0xFF47 {
            self.bgp = v;
        }
        assert(self@ == (PpuView {
            scx: if adr == 0xFF43 { v } else { pre.scx },
            lyc: if adr == 0xFF45 { v } else { pre.lyc },
            bgp: if adr == 0xFF47 { v } else { pre.bgp },
            ..mid
        }));
        let ghost mid2 = self@;
        if adr == 0xFF48 {
            self.obp0 = v;
        }
        if adr == 0xFF49 {
            self.obp1 = v;
        }
        if adr == 0xFF4A {
            self.wy = v;
        }
        if adr == 0xFF4B {
            self.wx = v;
        }
        assert(self@ == (PpuView {
            obp0: if adr == 0xFF48 { v } else { pre.obp0 },
            obp1: if adr == 0xFF49 { v } else { pre.obp1 },
            wy: if adr == 0xFF4A { v } else { pre.wy },
            wx: if adr == 0xFF4B { v } else { pre.wx },
            ..mid2
        }));
    }

    /// Stores a byte of an OAM DMA transfer; DMA reaches OAM in every mode.
    pub fn dma_write(&mut self, offset: usize, v: u8)
        requires
            old(self).wf(),
            offset < OAM_SIZE,
        ensures
            final(self).wf(),
            final(self)@ == (PpuView { oam: old(self)@.oam.update(offset as int, v), ..old(self)@ }),
    {
        self.oam.set(offset, v);
    }

    /// Hands out the finished frame, if one is waiting, and clears the mark.
    pub fn take_frame(&mut self) -> (r: Option<Vec<u8>>)
        requires
            old(self).wf(),
        ensures
            final(self).wf(),
            final(self)@ == (PpuView { frame_ready: false, ..old(self)@ }),
            old(self)@.frame_ready <==> r.is_some(),
            r.is_some() ==> r.unwrap()@ == old(self)@.fifo.screen,
    {
        if !self.frame_ready {
            return None;
        }
        self.frame_ready = false;
        let mut frame: Vec<u8> = Vec::new();
        let mut i: usize = 0;
        while i < SCREEN_SIZE
            invariant
                self.wf(),
                i <= SCREEN_SIZE,
                frame@ =~= self.pixel_fifo.screen@.subrange(0, i as int),
            decreases SCREEN_SIZE - i,
        {
            frame.push(self.pixel_fifo.screen[i]);
            i = i + 1;
        }
        assert(frame@ =~= self.pixel_fifo.screen@);
        Some(frame)
    }
}

/// With the LCD off the PPU does not move: no interrupt, LY and the mode kept.
pub proof fn lemma_lcd_off_is_still(p: PpuView)
    requires
        !p.control.lcd_en,
    ensures
        p.next() == (p, 0u8),
{
}

/// While the LCD is on and in pixel transfer, VRAM and OAM read as 0xFF and
/// writes to them are dropped.
pub proof fn lemma_transfer_locks_video_memory(p: PpuView, adr: u16, v: u8)
    requires
        p.control.lcd_en,
        p.lcd_stat.mode == Mode::TRANSFER,
        (0x8000 <= adr <= 0x9FFF) || (0xFE00 <= adr <= 0xFE9F),
    ensures
        p.read(adr) == 0xFF,
        p.written(adr, v) == p,
{
}

/// Switching the LCD off through LCDC puts LY at 0, where it stays while the
/// LCD is off.
pub proof fn lemma_lcd_off_write_clears_ly(p: PpuView, v: u8)
    requires
        v < 128,
    ensures
        p.written(0xFF40, v).ly == 0,
        !p.written(0xFF40, v).control.lcd_en,
        p.written(0xFF40, v).next().0.ly == 0,
{
    reveal(Control::from_byte);
}

} // verus!
