use vstd::prelude::*;

use crate::{flag_value, wrap16, Interrupt};

verus! {

/// The serial control register: transfer enable (bit 7) and internal clock (bit 0).
#[derive(Debug, Clone, Copy, PartialEq, Eq)]
pub struct SC {
    pub sio_clk: bool,
    pub sio_en: bool,
}

impl SC {
    pub open spec fn read(self) -> u8 {
        (flag_value(self.sio_en, 128) + 0x7E + flag_value(self.sio_clk, 1)) as u8
    }

    pub fn new() -> (r: SC)
        ensures
            r == (SC { sio_clk: false, sio_en: false }),
    {
        SC { sio_clk: false, sio_en: false }
    }

    pub fn read_word(&self) -> (r: u8)
        ensures
            r == self.read(),
    {
        let en: u8 = if self.sio_en { 128 } else { 0 };
        let clk: u8 = if self.sio_clk { 1 } else { 0 };
        en + 0x7E + clk
    }

    pub fn write_word(&mut self, v: u8)
        ensures
            *final(self) == (SC { sio_clk: v % 2 == 1, sio_en: v >= 128 }),
    {
        self.sio_clk = v % 2 == 1;
        self.sio_en = v >= 128;
    }
}

/// A serial port with no partner: with the internal clock it shifts SB out one
/// bit every 128 machine cycles and raises the serial interrupt after eight.
#[derive(Debug, Clone, Copy, PartialEq, Eq)]
pub struct Serial {
    pub sb: u8,
    pub sc: SC,
    pub counter: u16,
    pub sent: u8,
}

impl Serial {
    pub open spec fn next(self) -> (Serial, Interrupt) {
        if self.sc.sio_en && self.sc.sio_clk {
            let counter = wrap16(self.counter + 1);
            if counter % 128 == 0 {
                let shifted = Serial {
                    counter,
                    sent: ((self.sent * 2) % 256 + self.sb / 128) as u8,
                    sb: ((self.sb * 2) % 256) as u8,
                    ..self
                };
                if counter == 1024 {
                    (
                        Serial { counter: 0, sent: 0, sc: SC { sio_en: false, ..self.sc }, ..shifted },
                        Interrupt::SERIAL,
                    )
                } else {
                    (shifted, Interrupt::NoInterrupt)
                }
            } else {
                (Serial { counter, ..self }, Interrupt::NoInterrupt)
            }
        } else {
            (self, Interrupt::NoInterrupt)
        }
    }

    pub open spec fn read(self, adr: u16) -> u8 {
        if adr == 0xFF01 {
            self.sb
        } else {
            self.sc.read()
        }
    }

    pub open spec fn written(self, adr: u16, v: u8) -> Serial {
        if adr == 0xFF01 {
            Serial { sb: v, ..self }
        } else {
            Serial { sc: SC { sio_clk: v % 2 == 1, sio_en: v >= 128 }, ..self }
        }
    }

    pub open spec fn new_spec() -> Serial {
        Serial { sb: 0, sc: SC { sio_clk: false, sio_en: false }, counter: 0, sent: 0 }
    }

    pub fn new() -> (r: Serial)
        ensures
            r == Serial::new_spec(),
    {
        Serial { sb: 0, sc: SC::new(), counter: 0, sent: 0 }
    }

    pub fn read_word(&self, adr: u16) -> (r: u8)
        requires
            adr == 0xFF01 || adr == 0xFF02,
        ensures
            r == self.read(adr),
    {
        if adr == 0xFF01 {
            self.sb
        } else {
            self.sc.read_word()
        }
    }

    pub fn write_word(&mut self, adr: u16, v: u8)
        requires
            adr == 0xFF01 || adr == 0xFF02,
        ensures
            *final(self) == old(self).written(adr, v),
    {
        if adr == 0xFF01 {
            self.sb = v;
        } else {
            self.sc.write_word(v);
        }
    }

    /// Advances the port by one machine cycle.
    pub fn tick(&mut self) -> (r: Interrupt)
        ensures
            (*final(self), r) == old(self).next(),
    {
        if self.sc.sio_en && self.sc.sio_clk {
            self.counter = self.counter.wrapping_add(1);
            if self.counter % 128 == 0 {
                let doubled = ((self.sent as u16 * 2) % 256) as u8;
                assert(doubled <= 254) by (nonlinear_arith)
                    requires doubled == (self.sent as u16 * 2) % 256;
                self.sent = doubled + self.sb / 128;
                self.sb = ((self.sb as u16 * 2) % 256) as u8;
                if self.counter == 1024 {
                    self.counter = 0;
                    self.sent = 0;
                    self.sc.sio_en = false;
                    return Interrupt::SERIAL;
                }
            }
        }
        Interrupt::NoInterrupt
    }
}

} // verus!
