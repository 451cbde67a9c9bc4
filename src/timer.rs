use vstd::prelude::*;

use crate::{flag_value, wrap16, Interrupt};

verus! {

/// The divider and the programmable timer.
///
/// `big_div` is the full 16-bit divider; its high byte is the DIV register.
/// TIMA counts falling edges of the divider bit that TAC selects, gated by
/// the enable bit. An overflow leaves TIMA at zero for one tick before it is
/// reloaded from TMA and the timer interrupt is raised.
#[derive(Debug, Clone, Copy, PartialEq, Eq)]
pub struct Timer {
    pub big_div: u16,
    pub delayed_edge: bool,
    pub tac: u8,
    pub tima_reload: bool,
    pub tima: u8,
    pub tma: u8,
    pub timer_enabled: bool,
}

/// The divider bit that a clock select value watches, as a power of two:
/// bit 9 for 00, bit 3 for 01, bit 5 for 10, bit 7 for 11.
pub open spec fn select_weight(tac: u8) -> u16 {
    if tac % 4 == 0 {
        512
    } else if tac % 4 == 3 {
        128
    } else if tac % 4 == 2 {
        32
    } else {
        8
    }
}

/// Whether the timer input is high for a divider value.
pub open spec fn edge_of(div: u16, tac: u8, enabled: bool) -> bool {
    enabled && (div / select_weight(tac)) % 2 == 1
}

impl Timer {
    /// The timer after one machine cycle (four clocks), with the interrupt it raises.
    pub open spec fn next(self) -> (Timer, Interrupt) {
        let t1 = if self.tima_reload {
            Timer { tima: self.tma, tima_reload: false, ..self }
        } else {
            self
        };
        let div = wrap16(t1.big_div + 4);
        let edge = edge_of(div, t1.tac, t1.timer_enabled);
        let t2 = Timer { big_div: div, delayed_edge: edge, ..t1 };
        let t3 = if !edge && t1.delayed_edge {
            if t1.tima == 255 {
                Timer { tima: 0, tima_reload: true, ..t2 }
            } else {
                Timer { tima: (t1.tima + 1) as u8, ..t2 }
            }
        } else {
            t2
        };
        (t3, if self.tima_reload { Interrupt::TIMER } else { Interrupt::NoInterrupt })
    }

    /// The timer after `n` machine cycles.
    pub open spec fn after(self, n: nat) -> Timer
        decreases n,
    {
        if n == 0 {
            self
        } else {
            self.next().0.after((n - 1) as nat)
        }
    }

    /// The byte read at one of the timer's four addresses.
    pub open spec fn read(self, adr: u16) -> u8 {
        if adr == 0xFF04 {
            (self.big_div / 256) as u8
        } else if adr == 0xFF05 {
            self.tima
        } else if adr == 0xFF06 {
            self.tma
        } else {
            (0xF8 + flag_value(self.timer_enabled, 4) + self.tac % 4) as u8
        }
    }

    /// The timer after a byte is written at one of its four addresses.
    pub open spec fn written(self, adr: u16, v: u8) -> Timer {
        if adr == 0xFF04 {
            Timer { big_div: 0, ..self }
        } else if adr == 0xFF05 {
            Timer { tima_reload: false, tima: v, ..self }
        } else if adr == 0xFF06 {
            Timer { tma: v, ..self }
        } else {
            Timer { tac: v % 4, timer_enabled: (v % 8) / 4 == 1, ..self }
        }
    }

    /// The state at power-on.
    pub open spec fn new_spec() -> Timer {
        Timer {
            big_div: 0xABCC,
            delayed_edge: false,
            tac: 0,
            tima_reload: false,
            tima: 0,
            tma: 0,
            timer_enabled: false,
        }
    }

    pub fn new() -> (r: Timer)
        ensures
            r == Timer::new_spec(),
    {
        Timer {
            big_div: 0xABCC,
            delayed_edge: false,
            tac: 0,
            tima_reload: false,
            tima: 0,
            tma: 0,
            timer_enabled: false,
        }
    }

    /// Advances the timer by one machine cycle.
    pub fn tick(&mut self) -> (r: Interrupt)
        ensures
            (*final(self), r) == old(self).next(),
    {
        let mut interrupt = Interrupt::NoInterrupt;
        if self.tima_reload {
            self.tima = self.tma;
            self.tima_reload = false;
            interrupt = Interrupt::TIMER;
        }
        self.big_div = self.big_div.wrapping_add(4);
        let weight: u16 = if self.tac % 4 == 0 {
            512
        } else if self.tac % 4 == 3 {
            128
        } else if self.tac % 4 == 2 {
            32
        } else {
            8
        };
        let edge = self.timer_enabled && (self.big_div / weight) % 2 == 1;
        if !edge && self.delayed_edge {
            self.delayed_edge = edge;
            if self.tima == 255 {
                self.tima_reload = true;
                self.tima = 0;
            } else {
                self.tima = self.tima + 1;
            }
        } else {
            self.delayed_edge = edge;
        }
        interrupt
    }

    pub fn read_word(&self, adr: u16) -> (r: u8)
        requires
            0xFF04 <= adr <= 0xFF07,
        ensures
            r == self.read(adr),
    {
        match adr {
            0xFF04 => (self.big_div / 256) as u8,
            0xFF05 => self.tima,
            0xFF06 => self.tma,
            _ => {
                let enabled: u8 = if self.timer_enabled { 4 } else { 0 };
                0xF8 + enabled + self.tac % 4
            },
        }
    }

    pub fn write_word(&mut self, adr: u16, v: u8)
        requires
            0xFF04 <= adr <= 0xFF07,
        ensures
            *final(self) == old(self).written(adr, v),
    {
        match adr {
            0xFF04 => self.big_div = 0,
            0xFF05 => {
                self.tima_reload = false;
                self.tima = v;
            },
            0xFF06 => self.tma = v,
            _ => {
                self.tac = v % 4;
                self.timer_enabled = (v % 8) / 4 == 1;
            },
        }
    }
}

/// The timer state `k` machine cycles after the divider was cleared with the
/// slowest clock selected and enabled, while fewer than 256 cycles have passed.
pub open spec fn slow_count_state(t: Timer, k: nat) -> Timer {
    Timer { big_div: wrap16(4 * k as int), delayed_edge: 4 * k >= 512, ..t }
}

proof fn lemma_slow_count_prefix(t: Timer, k: nat)
    requires
        t.big_div == 0,
        t.tac == 0,
        t.timer_enabled,
        !t.delayed_edge,
        !t.tima_reload,
        k < 256,
    ensures
        t.after(k) == slow_count_state(t, k),
    decreases k,
{
    if k > 0 {
        lemma_slow_count_prefix(t, (k - 1) as nat);
        lemma_after_split(t, (k - 1) as nat);
    }
}

proof fn lemma_after_split(t: Timer, k: nat)
    ensures
        t.after(k + 1) == t.after(k).next().0,
    decreases k,
{
    if k > 0 {
        lemma_after_split(t.next().0, (k - 1) as nat);
    } else {
        assert(t.next().0.after(0) == t.next().0);
    }
}

/// With the slowest clock (one count per 1024 clocks) enabled and the divider
/// at zero, 256 machine cycles (1024 clocks) raise TIMA by exactly one.
pub proof fn lemma_slow_clock_counts_once(t: Timer)
    requires
        t.big_div == 0,
        t.tac == 0,
        t.timer_enabled,
        !t.delayed_edge,
        !t.tima_reload,
        t.tima < 255,
    ensures
        t.after(256).tima == t.tima + 1,
        forall|k: nat| k < 256 ==> #[trigger] t.after(k).tima == t.tima,
{
    lemma_slow_count_prefix(t, 255);
    lemma_after_split(t, 255);
    assert forall|k: nat| k < 256 implies #[trigger] t.after(k).tima == t.tima by {
        lemma_slow_count_prefix(t, k);
    }
}

/// Clearing the divider counts a falling edge on the next cycle exactly when
/// the selected input was high before the write.
pub proof fn lemma_div_write_edge(t: Timer, v: u8)
    requires
        !t.tima_reload,
        t.tima < 255,
    ensures
        t.written(0xFF04, v).next().0.tima == if t.delayed_edge {
            t.tima + 1
        } else {
            t.tima as int
        },
{
    let w = select_weight(t.tac);
    assert(4u16 / w == 0);
}

} // verus!
