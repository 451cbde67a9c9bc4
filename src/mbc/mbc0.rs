use vstd::prelude::*;

verus! {

pub const EXT_RAM_SIZE: usize = 8192;

/// A cartridge without bank switching: up to 32 KiB of ROM at 0x0000..0x7FFF
/// and 8 KiB of external RAM at 0xA000..0xBFFF.
pub struct MBC0 {
    pub rom: Vec<u8>,
    pub ext_ram: Vec<u8>,
}

/// What the cartridge holds: its ROM image and its external RAM.
pub struct CartView {
    pub rom: Seq<u8>,
    pub ext_ram: Seq<u8>,
}

impl CartView {
    pub open spec fn wf(self) -> bool {
        self.ext_ram.len() == EXT_RAM_SIZE
    }

    /// The byte at a cartridge address; ROM past the image's end reads 0xFF.
    pub open spec fn read(self, adr: u16) -> u8 {
        if adr <= 0x7FFF {
            if (adr as int) < self.rom.len() {
                self.rom[adr as int]
            } else {
                0xFF
            }
        } else {
            self.ext_ram[adr - 0xA000]
        }
    }

    /// The cartridge after a write: ROM ignores it, external RAM stores it.
    pub open spec fn written(self, adr: u16, v: u8) -> CartView {
        if adr <= 0x7FFF {
            self
        } else {
            CartView { ext_ram: self.ext_ram.update(adr - 0xA000, v), ..self }
        }
    }
}

pub open spec fn is_cart_adr(adr: u16) -> bool {
    adr <= 0x7FFF || (0xA000 <= adr <= 0xBFFF)
}

impl View for MBC0 {
    type V = CartView;

    open spec fn view(&self) -> CartView {
        CartView { rom: self.rom@, ext_ram: self.ext_ram@ }
    }
}

impl MBC0 {
    pub open spec fn wf(&self) -> bool {
        self@.wf()
    }

    pub fn new(rom: Vec<u8>) -> (r: MBC0)
        ensures
            r.wf(),
            r.rom@ == rom@,
            r.ext_ram@ == Seq::new(8192, |i: int| 0u8),
    {
        let ext_ram = vec![0u8; EXT_RAM_SIZE];
        assert(ext_ram@ =~= Seq::new(8192, |i: int| 0u8));
        MBC0 { rom, ext_ram }
    }

    pub fn read_word(&self, adr: u16) -> (r: u8)
        requires
            self.wf(),
            is_cart_adr(adr),
        ensures
            r == self@.read(adr),
    {
        if adr <= 0x7FFF {
            if (adr as usize) < self.rom.len() {
                self.rom[adr as usize]
            } else {
                0xFF
            }
        } else {
            self.ext_ram[(adr - 0xA000) as usize]
        }
    }

    pub fn write_word(&mut self, adr: u16, val: u8)
        requires
            old(self).wf(),
            is_cart_adr(adr),
        ensures
            final(self).wf(),
            final(self)@ == old(self)@.written(adr, val),
    {
        if adr > 0x7FFF {
            self.ext_ram.set((adr - 0xA000) as usize, val);
        }
    }
}

} // verus!
