use vstd::prelude::*;

use crate::input::Control;
use crate::Interrupt;

verus! {

#[derive(Debug, Clone, Copy, PartialEq, Eq, Structural)]
pub enum Key {
    Down,
    Up,
    Left,
    Right,
    Start,
    Select,
    A,
    B,
}

/// The button matrix behind port P1. `select_map` holds P1 bits 5..4; a clear
/// bit selects its half of the matrix. `directions` and `buttons` hold one bit
/// per key, 1 for released and 0 for pressed.
#[derive(Debug, Clone, Copy, PartialEq, Eq)]
pub struct Joypad {
    pub select_map: u8,
    pub directions: u8,
    pub buttons: u8,
    pub prev_state: u8,
}

pub const UP_MASK: u8 = 0b1000;
pub const DOWN_MASK: u8 = 0b0100;
pub const LEFT_MASK: u8 = 0b0010;
pub const RIGHT_MASK: u8 = 0b0001;
pub const START_MASK: u8 = 0b1000;
pub const SELECT_MASK: u8 = 0b0100;
pub const B_MASK: u8 = 0b0010;
pub const A_MASK: u8 = 0b0001;

/// Whether a key sits in the direction half of the matrix.
pub open spec fn is_direction(key: Key) -> bool {
    key == Key::Up || key == Key::Down || key == Key::Left || key == Key::Right
}

/// The bit of a key within its half of the matrix.
pub open spec fn key_mask(key: Key) -> u8 {
    match key {
        Key::Up => UP_MASK,
        Key::Down => DOWN_MASK,
        Key::Left => LEFT_MASK,
        Key::Right => RIGHT_MASK,
        Key::Start => START_MASK,
        Key::Select => SELECT_MASK,
        Key::B => B_MASK,
        Key::A => A_MASK,
    }
}

impl Joypad {
    /// The lines 3..0 of P1: a hidden half reads all ones (released), and the
    /// shown halves combine so that a key pressed in either pulls its line low.
    pub open spec fn lines(self) -> u8 {
        (if self.select_map & 1 == 0 {
            self.directions
        } else {
            0xFu8
        }) & (if self.select_map & 2 == 0 {
            self.buttons
        } else {
            0xFu8
        }) & 0xF
    }

    /// The byte read at P1: bits 7..6 set, the selection in bits 5..4, and the
    /// selected lines of the matrix in bits 3..0.
    pub open spec fn read(self) -> u8 {
        0xC0u8 | (self.select_map << 4u8) | self.lines()
    }

    pub open spec fn released(self, key: Key) -> Joypad {
        if is_direction(key) {
            Joypad { directions: self.directions | key_mask(key), ..self }
        } else {
            Joypad { buttons: self.buttons | key_mask(key), ..self }
        }
    }

    pub open spec fn pressed(self, key: Key) -> Joypad {
        if is_direction(key) {
            Joypad { directions: self.directions & !key_mask(key), ..self }
        } else {
            Joypad { buttons: self.buttons & !key_mask(key), ..self }
        }
    }

    /// The joypad after one machine cycle, with the interrupt bits it raises:
    /// the joypad interrupt when a visible line went from high to low.
    pub open spec fn next(self) -> (Joypad, u8) {
        let pre = self.prev_state & 0xF;
        let state = self.read();
        let new = state & 0xF;
        (Joypad { prev_state: state, ..self }, if pre & !new != 0 {
            Interrupt::JOYPAD.mask()
        } else {
            Interrupt::NoInterrupt.mask()
        })
    }

    /// All keys released, both halves selected.
    pub open spec fn new_spec() -> Joypad {
        Joypad { select_map: 0, directions: 0b1111, buttons: 0b1111, prev_state: 0 }
    }

    pub fn new() -> (r: Joypad)
        ensures
            r == Joypad::new_spec(),
    {
        Joypad { select_map: 0x00, directions: 0b1111, buttons: 0b1111, prev_state: 0 }
    }

    pub fn read_word(&self) -> (r: u8)
        ensures
            r == self.read(),
    {
        let directions: u8 = if self.select_map & 1 == 0 {
            self.directions
        } else {
            0xF
        };
        let buttons: u8 = if self.select_map & 2 == 0 {
            self.buttons
        } else {
            0xF
        };
        0xC0u8 | (self.select_map << 4u8) | (directions & buttons & 0xF)
    }

    pub fn write_word(&mut self, v: u8)
        ensures
            *final(self) == (Joypad { select_map: (v & 0b0011_0000) >> 4u8, ..*old(self) }),
    {
        self.select_map = (v & 0b0011_0000) >> 4u8;
    }

    pub fn key_up(&mut self, key: Key)
        ensures
            *final(self) == old(self).released(key),
    {
        match key {
            Key::Up => self.directions = self.directions | UP_MASK,
            Key::Down => self.directions = self.directions | DOWN_MASK,
            Key::Left => self.directions = self.directions | LEFT_MASK,
            Key::Right => self.directions = self.directions | RIGHT_MASK,
            Key::Start => self.buttons = self.buttons | START_MASK,
            Key::Select => self.buttons = self.buttons | SELECT_MASK,
            Key::B => self.buttons = self.buttons | B_MASK,
            Key::A => self.buttons = self.buttons | A_MASK,
        }
    }

    pub fn key_down(&mut self, key: Key)
        ensures
            *final(self) == old(self).pressed(key),
    {
        match key {
            Key::Up => self.directions = self.directions & !UP_MASK,
            Key::Down => self.directions = self.directions & !DOWN_MASK,
            Key::Left => self.directions = self.directions & !LEFT_MASK,
            Key::Right => self.directions = self.directions & !RIGHT_MASK,
            Key::Start => self.buttons = self.buttons & !START_MASK,
            Key::Select => self.buttons = self.buttons & !SELECT_MASK,
            Key::B => self.buttons = self.buttons & !B_MASK,
            Key::A => self.buttons = self.buttons & !A_MASK,
        }
    }

    /// Applies one input event from the host; `Quit` leaves the matrix as it is.
    pub fn process_inputs(&mut self, control: Control)
        ensures
            *final(self) == match control {
                Control::KeyUp(k) => old(self).released(k),
                Control::KeyDown(k) => old(self).pressed(k),
                Control::Quit => *old(self),
            },
    {
        match control {
            Control::KeyUp(k) => self.key_up(k),
            Control::KeyDown(k) => self.key_down(k),
            Control::Quit => {},
        }
    }

    /// Latches the visible lines and reports a high-to-low transition.
    pub fn tick(&mut self) -> (r: u8)
        ensures
            (*final(self), r) == old(self).next(),
    {
        let pre = self.prev_state & 0xF;
        self.prev_state = self.read_word();
        let new = self.prev_state & 0xF;
        if pre & !new != 0 {
            Interrupt::JOYPAD.bits()
        } else {
            Interrupt::NoInterrupt.bits()
        }
    }
}

/// P1 bits 3..0 by the selection: all high with both halves hidden, one half
/// alone when only its select bit is low, and the two halves ANDed when both
/// are shown (0 is pressed).
pub proof fn lemma_p1_lines(j: Joypad)
    ensures
        j.select_map & 3 == 3 ==> j.lines() == 0xF,
        j.select_map & 3 == 2 ==> j.lines() == j.directions & 0xF,
        j.select_map & 3 == 1 ==> j.lines() == j.buttons & 0xF,
        j.select_map & 3 == 0 ==> j.lines() == j.directions & j.buttons & 0xF,
{
    let s = j.select_map;
    let d = j.directions;
    let b = j.buttons;
    assert((s & 3 == 3 ==> ((if s & 1 == 0 { d } else { 0xFu8 }) & (if s & 2 == 0 { b } else { 0xFu8 }) & 0xF) == 0xF) && (s & 3 == 2 ==> ((if s & 1 == 0 { d } else { 0xFu8 }) & (if s & 2 == 0 { b } else { 0xFu8 }) & 0xF) == d & 0xF) && (s & 3 == 1 ==> ((if s & 1 == 0 { d } else { 0xFu8 }) & (if s & 2 == 0 { b } else { 0xFu8 }) & 0xF)
        == b & 0xF) && (s & 3 == 0 ==> ((if s & 1 == 0 { d } else { 0xFu8 }) & (if s & 2 == 0 { b } else { 0xFu8 }) & 0xF) == d & b & 0xF)) by (bit_vector);
}

} // verus!
