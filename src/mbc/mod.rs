use vstd::prelude::*;

pub mod mbc0;

use mbc0::MBC0;

verus! {

/// The cartridge controller for a ROM image. Only the bankless kind exists.
pub fn load(rom: Vec<u8>) -> (r: MBC0)
    ensures
        r.wf(),
        r.rom@ == rom@,
        r.ext_ram@ == Seq::new(8192, |i: int| 0u8),
{
    MBC0::new(rom)
}

} // verus!
