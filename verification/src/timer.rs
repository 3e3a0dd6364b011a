use crate::interrupts::Interrupt;
use vstd::prelude::*;

verus! {

/// Address of the divider register, the high byte of the system counter.
pub const DIV: u16 = 0xFF04;

/// Address of the timer counter.
pub const TIMA: u16 = 0xFF05;

/// Address of the timer modulo, reloaded into the counter when it overflows.
pub const TMA: u16 = 0xFF06;

/// Address of the timer control register.
pub const TAC: u16 = 0xFF07;

/// The system timer: a free-running 16-bit counter, and an 8-bit counter
/// that is clocked from one of its bits.
///
/// The struct is its own model: every field is a plain value.
#[derive(Debug, Clone, Copy, PartialEq, Eq, Structural)]
pub struct Timer {
    /// The system counter, advanced by 4 on every machine cycle.
    pub sysclock: u16,
    /// The programmable counter.
    pub tima: u8,
    /// The value the programmable counter restarts from.
    pub tma: u8,
    /// The level the counter's clock input had after the last cycle.
    pub edge: bool,
    /// Whether the programmable counter is running.
    pub tima_enable: bool,
    /// Which bit of the system counter clocks the programmable counter.
    pub clock_select: u8,
}

/// What the system counter is divided by to bring the bit chosen by
/// `select` to the lowest position: bits 9, 3, 5 and 7 in turn.
pub open spec fn divisor(select: u8) -> int {
    if select % 4 == 0 {
        512
    } else if select % 4 == 1 {
        8
    } else if select % 4 == 2 {
        32
    } else {
        128
    }
}

/// The level of the counter's clock input: the selected bit of the system
/// counter, gated by the enable bit.
pub open spec fn clock_input(sysclock: u16, enable: bool, select: u8) -> bool {
    enable && (sysclock as int / divisor(select)) % 2 == 1
}

proof fn lemma_selected_bit(x: u16)
    by (bit_vector)
    ensures
        ((x >> 9u16) & 1 != 0) == ((x / 512) % 2 == 1),
        ((x >> 3u16) & 1 != 0) == ((x / 8) % 2 == 1),
        ((x >> 5u16) & 1 != 0) == ((x / 32) % 2 == 1),
        ((x >> 7u16) & 1 != 0) == ((x / 128) % 2 == 1),
        (x >> 8u16) == x / 256,
        (x >> 8u16) < 256,
{
}

proof fn lemma_control_bits(value: u8)
    by (bit_vector)
    ensures
        (value & 4 != 0) == ((value / 4) % 2 == 1),
        value & 3 == value % 4,
        0xF8u8 | (1u8 << 2u8) | (value & 3) == 0xFC + value % 4,
        0xF8u8 | (0u8 << 2u8) | (value & 3) == 0xF8 + value % 4,
{
}

impl Timer {
    /// The timer after one machine cycle, and the interrupt it raises.
    ///
    /// The system counter advances by 4. The programmable counter counts
    /// the falling edges of its clock input; when it overflows it restarts
    /// from the modulo and the timer interrupt is requested.
    pub open spec fn tick_spec(self) -> (Timer, Option<Interrupt>) {
        let sysclock = ((self.sysclock + 4) % 0x1_0000) as u16;
        let level = clock_input(sysclock, self.tima_enable, self.clock_select);
        let falling = self.edge && !level;
        let overflow = falling && self.tima == 0xFF;
        let tima = if overflow {
            self.tma
        } else if falling {
            (self.tima + 1) as u8
        } else {
            self.tima
        };
        (
            Timer { sysclock, edge: level, tima, ..self },
            if overflow {
                Some(Interrupt::Timer)
            } else {
                None
            },
        )
    }

    /// The timer after `n` machine cycles without a write in between.
    pub open spec fn ticks(self, n: nat) -> Timer
        decreases n,
    {
        if n == 0 {
            self
        } else {
            self.tick_spec().0.ticks((n - 1) as nat)
        }
    }

    /// What a read of one of the four timer registers returns.
    pub open spec fn read_spec(self, address: u16) -> u8 {
        if address == DIV {
            (self.sysclock / 256) as u8
        } else if address == TIMA {
            self.tima
        } else if address == TMA {
            self.tma
        } else {
            (0xF8 + (if self.tima_enable {
                4int
            } else {
                0int
            }) + self.clock_select % 4) as u8
        }
    }

    /// The timer after a write to one of the four timer registers.
    pub open spec fn write_spec(self, address: u16, value: u8) -> Timer {
        if address == DIV {
            Timer { sysclock: 0, ..self }
        } else if address == TIMA {
            Timer { tima: value, ..self }
        } else if address == TMA {
            Timer { tma: value, ..self }
        } else {
            Timer { tima_enable: (value / 4) % 2 == 1, clock_select: value % 4, ..self }
        }
    }

    /// A stopped timer with every register at zero.
    pub fn new() -> (timer: Timer)
        ensures
            timer == (Timer {
                sysclock: 0,
                tima: 0,
                tma: 0,
                edge: false,
                tima_enable: false,
                clock_select: 0,
            }),
    {
        Timer { sysclock: 0, tima: 0, tma: 0, edge: false, tima_enable: false, clock_select: 0 }
    }

    /// Advances the timer by one machine cycle and reports the interrupt
    /// that the cycle raised, if any.
    pub fn tick(&mut self) -> (irq: Option<Interrupt>)
        ensures
            *final(self) == old(self).tick_spec().0,
            irq == old(self).tick_spec().1,
    {
        self.sysclock = self.sysclock.wrapping_add(4);
        let shift: u16 = match self.clock_select & 3 {
            0 => 9,
            1 => 3,
            2 => 5,
            _ => 7,
        };
        proof {
            lemma_selected_bit(self.sysclock);
            lemma_control_bits(self.clock_select);
        }
        let level = self.tima_enable && (self.sysclock >> shift) & 1 != 0;
        let falling = self.edge && !level;
        self.edge = level;
        if falling {
            if self.tima == 0xFF {
                self.tima = self.tma;
                return Some(Interrupt::Timer);
            }
            self.tima = self.tima + 1;
        }
        None
    }

    /// Reads the timer register at `address`.
    #[must_use]
    pub fn read_byte(&self, address: u16) -> (byte: u8)
        requires
            DIV <= address <= TAC,
        ensures
            byte == self.read_spec(address),
    {
        proof {
            lemma_selected_bit(self.sysclock);
            lemma_control_bits(self.clock_select);
        }
        if address == DIV {
            (self.sysclock >> 8) as u8
        } else if address == TIMA {
            self.tima
        } else if address == TMA {
            self.tma
        } else if self.tima_enable {
            0xF8 | (1u8 << 2) | (self.clock_select & 3)
        } else {
            0xF8 | (0u8 << 2) | (self.clock_select & 3)
        }
    }

    /// Writes `value` to the timer register at `address`.
    pub fn write_byte(&mut self, address: u16, value: u8)
        requires
            DIV <= address <= TAC,
        ensures
            *final(self) == old(self).write_spec(address, value),
    {
        proof {
            lemma_control_bits(value);
        }
        if address == DIV {
            self.sysclock = 0;
        } else if address == TIMA {
            self.tima = value;
        } else if address == TMA {
            self.tma = value;
        } else {
            self.tima_enable = value & 4 != 0;
            self.clock_select = value & 3;
        }
    }
}

impl Default for Timer {
    fn default() -> (timer: Timer)
        ensures
            timer == (Timer {
                sysclock: 0,
                tima: 0,
                tma: 0,
                edge: false,
                tima_enable: false,
                clock_select: 0,
            }),
    {
        Timer::new()
    }
}

/// Without a write to the divider, after `n` machine cycles the system
/// counter has advanced by `4 * n`, wrapping at 16 bits.
pub proof fn lemma_sysclock_after_ticks(timer: Timer, n: nat)
    ensures
        timer.ticks(n).sysclock == (timer.sysclock + 4 * n) % 0x1_0000,
    decreases n,
{
    if n > 0 {
        let next = timer.tick_spec().0;
        lemma_sysclock_after_ticks(next, (n - 1) as nat);
        assert(next.sysclock == (timer.sysclock + 4) % 0x1_0000);
        assert(((timer.sysclock + 4) % 0x1_0000 + 4 * (n - 1)) % 0x1_0000 == (timer.sysclock + 4
            * n) % 0x1_0000) by {
            vstd::arithmetic::div_mod::lemma_add_mod_noop(
                timer.sysclock + 4,
                4 * (n - 1),
                0x1_0000,
            );
            vstd::arithmetic::div_mod::lemma_add_mod_noop(
                (timer.sysclock + 4) % 0x1_0000,
                4 * (n - 1),
                0x1_0000,
            );
            vstd::arithmetic::div_mod::lemma_mod_twice(timer.sysclock + 4, 0x1_0000);
        }
    }
}

/// After `n >= 1` machine cycles without a write to the divider, the
/// divider reads as bits 8 to 15 of the initial system counter plus
/// `4 * n`.
pub proof fn lemma_div_after_ticks(timer: Timer, n: nat)
    requires
        n >= 1,
    ensures
        timer.ticks(n).read_spec(DIV) == ((timer.sysclock + 4 * n) / 256) % 256,
{
    lemma_sysclock_after_ticks(timer, n);
    let total = timer.sysclock + 4 * n;
    assert((total % 0x1_0000) / 256 == (total / 256) % 256) by {
        vstd::arithmetic::div_mod::lemma_fundamental_div_mod(total, 0x1_0000);
        vstd::arithmetic::div_mod::lemma_fundamental_div_mod(total, 256);
        vstd::arithmetic::div_mod::lemma_fundamental_div_mod(total / 256, 256);
        vstd::arithmetic::div_mod::lemma_div_denominator(total, 256, 256);
        vstd::arithmetic::div_mod::lemma_fundamental_div_mod(total % 0x1_0000, 256);
    }
}

} // verus!
