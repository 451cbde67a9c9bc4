use vstd::prelude::*;

pub mod cpu;
pub mod input;
pub mod joypad;
pub mod mbc;
pub mod mmu;
pub mod ppu;
pub mod registers;
pub mod serial;
pub mod timer;

verus! {

/// The weight a flag bit contributes to its register: `weight` when set.
pub open spec fn flag_value(b: bool, weight: int) -> int {
    if b { weight } else { 0 }
}

/// An integer reduced to a byte, as wrapping arithmetic leaves it.
pub open spec fn wrap8(x: int) -> u8 {
    (x % 256) as u8
}

/// An integer reduced to 64 bits, as wrapping arithmetic leaves it.
pub open spec fn wrap64(x: int) -> u64 {
    (x % 0x1_0000_0000_0000_0000) as u64
}

/// An integer reduced to a word, as wrapping arithmetic leaves it.
pub open spec fn wrap16(x: int) -> u16 {
    (x % 65536) as u16
}

/// The five interrupt sources, highest priority first.
#[derive(Debug, Clone, Copy, PartialEq, Eq, Structural)]
pub enum Interrupt {
    VBLANK,
    LCDStat,
    TIMER,
    SERIAL,
    JOYPAD,
    NoInterrupt,
}

impl Interrupt {
    /// The bit that the source sets in the interrupt flag register.
    pub open spec fn mask(self) -> u8 {
        match self {
            Interrupt::VBLANK => 1,
            Interrupt::LCDStat => 2,
            Interrupt::TIMER => 4,
            Interrupt::SERIAL => 8,
            Interrupt::JOYPAD => 16,
            Interrupt::NoInterrupt => 0,
        }
    }

    pub fn bits(&self) -> (r: u8)
        ensures
            r == self.mask(),
    {
        match self {
            Interrupt::VBLANK => 1,
            Interrupt::LCDStat => 2,
            Interrupt::TIMER => 4,
            Interrupt::SERIAL => 8,
            Interrupt::JOYPAD => 16,
            Interrupt::NoInterrupt => 0,
        }
    }
}


pub const CPU_CLOCK: u32 = 4194304;

/// A frame as rows of shades, 144 rows of 160 pixels.
pub type ScreenBuffer = [[u8; 160]; 144];

/// The pixels of a frame, row after row.
pub fn screen_buffer_to_vec(pixels: &ScreenBuffer) -> (r: Vec<u8>)
    ensures
        r@.len() == 160 * 144,
        forall|y: int, x: int|
            0 <= y < 144 && 0 <= x < 160 ==> #[trigger] r@[y * 160 + x] == pixels@[y]@[x],
{
    let mut out: Vec<u8> = Vec::new();
    let mut y: usize = 0;
    while y < 144
        invariant
            y <= 144,
            out@.len() == y * 160,
            forall|j: int, x: int|
                0 <= j < y && 0 <= x < 160 ==> #[trigger] out@[j * 160 + x] == pixels@[j]@[x],
        decreases 144 - y,
    {
        let row = &pixels[y];
        let mut x: usize = 0;
        while x < 160
            invariant
                y < 144,
                x <= 160,
                *row == pixels@[y as int],
                out@.len() == y * 160 + x,
                forall|j: int, i: int|
                    0 <= j < y && 0 <= i < 160 ==> #[trigger] out@[j * 160 + i] == pixels@[j]@[i],
                forall|i: int| 0 <= i < x ==> #[trigger] out@[y * 160 + i] == pixels@[y as int]@[i],
            decreases 160 - x,
        {
            out.push(row[x]);
            x = x + 1;
        }
        y = y + 1;
    }
    out
}

} // verus!
