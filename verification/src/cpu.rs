use crate::bus::{
    lemma_bytes_of_word, lemma_word_of_bytes, next_address, read_word_spec, write_word_spec, Bus,
};
use vstd::prelude::*;

pub mod alu;
pub mod decode;
pub mod execute;
pub mod laws;
pub mod step;
pub mod trace;

verus! {

/// The four condition flags. They are kept as booleans and packed into a
/// byte only when the flag register is observed.
#[derive(Debug, Clone, Copy, PartialEq, Eq, Structural)]
pub struct Flags {
    pub z: bool,
    pub c: bool,
    pub n: bool,
    pub h: bool,
}

/// The 8-bit registers, the program counter and the stack pointer.
#[derive(Debug, Clone, Copy, PartialEq, Eq, Structural)]
pub struct Registers {
    pub a: u8,
    pub b: u8,
    pub c: u8,
    pub d: u8,
    pub e: u8,
    pub h: u8,
    pub l: u8,
    pub pc: u16,
    pub sp: u16,
}

/// An 8-bit operand named by an instruction: one of the seven registers,
/// or a byte of memory reached through HL or C.
#[derive(Debug, Clone, Copy, PartialEq, Eq, Structural)]
pub enum Register {
    A,
    B,
    C,
    D,
    E,
    H,
    L,
    /// The byte at the address in HL.
    IndirectHL,
    /// The byte at the address in HL; HL is decremented afterwards.
    DecrementHL,
    /// The byte at the address in HL; HL is incremented afterwards.
    IncrementHL,
    /// The byte at 0xFF00 plus C.
    IndirectC,
}

/// A 16-bit register, or two 8-bit registers read as one.
#[derive(Debug, Clone, Copy, PartialEq, Eq, Structural)]
pub enum RegisterPair {
    BC,
    DE,
    HL,
    SP,
    AF,
}

/// The condition under which a jump, call or return is taken.
#[derive(Debug, Clone, Copy, PartialEq, Eq, Structural)]
pub enum Condition {
    Always,
    Zero,
    NonZero,
    Carry,
    NonCarry,
}

/// An operand of an instruction.
#[derive(Debug, Clone, Copy, PartialEq, Eq, Structural)]
pub enum Operand {
    /// The byte itself.
    Immediate8(u8),
    /// The byte at 0xFF00 plus the given offset.
    IndirectImmediate8(u8),
    /// The word itself.
    Immediate16(u16),
    /// The memory at the given address.
    IndirectImmediate16(u16),
    /// The stack pointer plus the given signed offset.
    StackOffset(i8),
    Register(Register),
    RegisterPair(RegisterPair),
    /// The byte at the address in the given pair.
    RegisterIndirect(RegisterPair),
}

/// A decoded instruction.
#[derive(Debug, Clone, Copy, PartialEq, Eq, Structural)]
pub enum Instruction {
    Ld(Operand, Operand),
    Xor(Operand),
    And(Operand),
    Add(Operand, Operand),
    Adc(Operand),
    Sub(Operand),
    Sbc(Operand),
    Or(Operand),
    Cp(Operand),
    Inc(Operand),
    Dec(Operand),
    Rlc(Register),
    Rrc(Register),
    Rl(Register),
    Rla,
    Rlca,
    Rr(Register),
    Rra,
    Rrca,
    Sla(Register),
    Sra(Register),
    Swap(Register),
    Srl(Register),
    /// Tests a bit of an 8-bit operand.
    Bit(u8, Register),
    /// Clears a bit of an 8-bit operand.
    Res(u8, Register),
    /// Sets a bit of an 8-bit operand.
    SetBit(u8, Register),
    Rst(u8),
    Ret(Condition),
    Reti,
    Jp(Condition, Operand),
    Jr(Condition, i8),
    Call(Condition, u16),
    Stop,
    Nop,
    Halt,
    Ei,
    Di,
    Push(RegisterPair),
    Pop(RegisterPair),
    Daa,
    Cpl,
    Scf,
    Ccf,
}

impl Flags {
    /// The flag register: Z, N, H and C in bits 7 to 4, zeros below.
    pub open spec fn byte_spec(self) -> u8 {
        ((if self.z {
            0x80int
        } else {
            0
        }) + (if self.n {
            0x40int
        } else {
            0
        }) + (if self.h {
            0x20int
        } else {
            0
        }) + (if self.c {
            0x10int
        } else {
            0
        })) as u8
    }

    /// The flags that a byte holds in bits 7 to 4.
    pub open spec fn from_byte_spec(byte: u8) -> Flags {
        Flags {
            z: (byte / 0x80) % 2 == 1,
            n: (byte / 0x40) % 2 == 1,
            h: (byte / 0x20) % 2 == 1,
            c: (byte / 0x10) % 2 == 1,
        }
    }

    /// All four flags clear.
    pub fn new() -> (flags: Flags)
        ensures
            flags == (Flags { z: false, c: false, n: false, h: false }),
    {
        Flags { z: false, c: false, n: false, h: false }
    }

    /// Packs the flags into the flag register's byte.
    pub fn to_byte(&self) -> (byte: u8)
        ensures
            byte == self.byte_spec(),
            byte % 16 == 0,
    {
        let z: u8 = if self.z {
            0x80
        } else {
            0
        };
        let n: u8 = if self.n {
            0x40
        } else {
            0
        };
        let h: u8 = if self.h {
            0x20
        } else {
            0
        };
        let c: u8 = if self.c {
            0x10
        } else {
            0
        };
        proof {
            lemma_flag_bits(z, n, h, c);
        }
        z | n | h | c
    }

    /// Reads the flags from bits 7 to 4 of `byte`; the low nibble is
    /// dropped.
    pub fn from_byte(byte: u8) -> (flags: Flags)
        ensures
            flags == Flags::from_byte_spec(byte),
    {
        proof {
            lemma_flag_tests(byte);
        }
        Flags {
            z: byte & 0x80 == 0x80,
            n: byte & 0x40 == 0x40,
            h: byte & 0x20 == 0x20,
            c: byte & 0x10 == 0x10,
        }
    }
}

impl Default for Flags {
    fn default() -> (flags: Flags)
        ensures
            flags == (Flags { z: false, c: false, n: false, h: false }),
    {
        Flags::new()
    }
}

impl Default for Registers {
    fn default() -> (registers: Registers)
        ensures
            registers == (Registers {
                a: 0,
                b: 0,
                c: 0,
                d: 0,
                e: 0,
                h: 0,
                l: 0,
                pc: 0,
                sp: 0,
            }),
    {
        Registers::new()
    }
}

proof fn lemma_flag_bits(z: u8, n: u8, h: u8, c: u8)
    by (bit_vector)
    requires
        z == 0x80 || z == 0,
        n == 0x40 || n == 0,
        h == 0x20 || h == 0,
        c == 0x10 || c == 0,
    ensures
        z | n | h | c == z + n + h + c,
{
}

proof fn lemma_flag_tests(byte: u8)
    by (bit_vector)
    ensures
        (byte & 0x80 == 0x80) == ((byte / 0x80) % 2 == 1),
        (byte & 0x40 == 0x40) == ((byte / 0x40) % 2 == 1),
        (byte & 0x20 == 0x20) == ((byte / 0x20) % 2 == 1),
        (byte & 0x10 == 0x10) == ((byte / 0x10) % 2 == 1),
{
}

/// The low nibble of the flag register is zero, whatever the flags are,
/// and unpacking what was packed gives the flags back.
pub proof fn lemma_flag_register(flags: Flags)
    ensures
        flags.byte_spec() % 16 == 0,
        Flags::from_byte_spec(flags.byte_spec()) == flags,
{
}

impl Register {
    /// Whether this operand is one of the seven registers.
    pub open spec fn is_direct(self) -> bool {
        self is A || self is B || self is C || self is D || self is E || self is H || self is L
    }

    /// Whether this operand is a register or the byte at HL: the eight
    /// operands that three bits of an opcode can name.
    pub open spec fn is_basic(self) -> bool {
        self.is_direct() || self is IndirectHL
    }
}

impl Registers {
    /// The value of one of the seven registers.
    pub open spec fn get_spec(self, register: Register) -> u8
        recommends
            register.is_direct(),
    {
        match register {
            Register::A => self.a,
            Register::B => self.b,
            Register::C => self.c,
            Register::D => self.d,
            Register::E => self.e,
            Register::H => self.h,
            Register::L => self.l,
            _ => 0,
        }
    }

    /// The registers with one of the seven replaced.
    pub open spec fn set_spec(self, register: Register, value: u8) -> Registers
        recommends
            register.is_direct(),
    {
        match register {
            Register::A => Registers { a: value, ..self },
            Register::B => Registers { b: value, ..self },
            Register::C => Registers { c: value, ..self },
            Register::D => Registers { d: value, ..self },
            Register::E => Registers { e: value, ..self },
            Register::H => Registers { h: value, ..self },
            Register::L => Registers { l: value, ..self },
            _ => self,
        }
    }

    /// Every register zero.
    pub fn new() -> (registers: Registers)
        ensures
            registers == (Registers {
                a: 0,
                b: 0,
                c: 0,
                d: 0,
                e: 0,
                h: 0,
                l: 0,
                pc: 0,
                sp: 0,
            }),
    {
        Registers { a: 0, b: 0, c: 0, d: 0, e: 0, h: 0, l: 0, pc: 0, sp: 0 }
    }

    /// Reads one of the seven registers.
    pub fn get(&self, register: Register) -> (value: u8)
        requires
            register.is_direct(),
        ensures
            value == self.get_spec(register),
    {
        match register {
            Register::A => self.a,
            Register::B => self.b,
            Register::C => self.c,
            Register::D => self.d,
            Register::E => self.e,
            Register::H => self.h,
            _ => self.l,
        }
    }

    /// Writes one of the seven registers.
    pub fn set(&mut self, register: Register, value: u8)
        requires
            register.is_direct(),
        ensures
            *final(self) == old(self).set_spec(register, value),
    {
        match register {
            Register::A => self.a = value,
            Register::B => self.b = value,
            Register::C => self.c = value,
            Register::D => self.d = value,
            Register::E => self.e = value,
            Register::H => self.h = value,
            _ => self.l = value,
        }
    }
}

/// The word with `high` and `low` as its halves.
pub open spec fn word(high: u8, low: u8) -> u16 {
    (high * 256 + low) as u16
}

/// The high half of a word.
pub open spec fn high_byte(value: u16) -> u8 {
    (value / 256) as u8
}

/// The low half of a word.
pub open spec fn low_byte(value: u16) -> u8 {
    (value % 256) as u8
}

/// The processor and the bus it drives.
pub struct Cpu<B: Bus> {
    pub registers: Registers,
    pub flags: Flags,
    /// The interrupt master enable.
    pub ime: bool,
    /// Set by the enable-interrupts instruction; becomes the master enable
    /// when the next instruction starts.
    pub ime_delayed: bool,
    /// Set by the halt instruction; cleared when an interrupt is pending.
    pub halted: bool,
    pub bus: B,
}

/// The processor's state as mathematical values, over the state `M` of
/// its bus.
pub struct CpuState<M> {
    pub registers: Registers,
    pub flags: Flags,
    pub ime: bool,
    pub ime_delayed: bool,
    pub halted: bool,
    pub bus: M,
}

impl<B: Bus> View for Cpu<B> {
    type V = CpuState<B::V>;

    open spec fn view(&self) -> CpuState<B::V> {
        CpuState {
            registers: self.registers,
            flags: self.flags,
            ime: self.ime,
            ime_delayed: self.ime_delayed,
            halted: self.halted,
            bus: self.bus@,
        }
    }
}

/// The registers and flags once the boot ROM has run.
pub open spec fn post_boot_registers() -> Registers {
    Registers {
        a: 0x01,
        b: 0x00,
        c: 0x13,
        d: 0x00,
        e: 0xD8,
        h: 0x01,
        l: 0x4D,
        pc: 0x0100,
        sp: 0xFFFE,
    }
}

/// The flags once the boot ROM has run: Z, H and C set.
pub open spec fn post_boot_flags() -> Flags {
    Flags { z: true, n: false, h: true, c: true }
}

impl<M> CpuState<M> {
    /// The value of a register pair. AF is the accumulator above the flag
    /// register.
    pub open spec fn pair(self, pair: RegisterPair) -> u16 {
        match pair {
            RegisterPair::BC => word(self.registers.b, self.registers.c),
            RegisterPair::DE => word(self.registers.d, self.registers.e),
            RegisterPair::HL => word(self.registers.h, self.registers.l),
            RegisterPair::AF => word(self.registers.a, self.flags.byte_spec()),
            RegisterPair::SP => self.registers.sp,
        }
    }

    /// The state with a register pair replaced. Of a value given to AF
    /// the low nibble is dropped.
    pub open spec fn with_pair(self, pair: RegisterPair, value: u16) -> CpuState<M> {
        let high = high_byte(value);
        let low = low_byte(value);
        match pair {
            RegisterPair::BC => CpuState {
                registers: Registers { b: high, c: low, ..self.registers },
                ..self
            },
            RegisterPair::DE => CpuState {
                registers: Registers { d: high, e: low, ..self.registers },
                ..self
            },
            RegisterPair::HL => CpuState {
                registers: Registers { h: high, l: low, ..self.registers },
                ..self
            },
            RegisterPair::AF => CpuState {
                registers: Registers { a: high, ..self.registers },
                flags: Flags::from_byte_spec(low),
                ..self
            },
            RegisterPair::SP => CpuState {
                registers: Registers { sp: value, ..self.registers },
                ..self
            },
        }
    }

    /// The state with one of the seven registers replaced.
    pub open spec fn with_register(self, register: Register, value: u8) -> CpuState<M> {
        CpuState { registers: self.registers.set_spec(register, value), ..self }
    }

    /// The state with the program counter replaced.
    pub open spec fn with_pc(self, pc: u16) -> CpuState<M> {
        CpuState { registers: Registers { pc, ..self.registers }, ..self }
    }

    /// The state with the flags replaced.
    pub open spec fn with_flags(self, flags: Flags) -> CpuState<M> {
        CpuState { flags, ..self }
    }

    /// The state with the bus replaced.
    pub open spec fn with_bus(self, bus: M) -> CpuState<M> {
        CpuState { bus, ..self }
    }
}

/// In every state the low nibble of the flag register, the low byte of
/// AF, is zero.
pub proof fn lemma_flag_register_low_nibble<M>(state: CpuState<M>)
    ensures
        low_byte(state.pair(RegisterPair::AF)) == state.flags.byte_spec(),
        state.pair(RegisterPair::AF) % 16 == 0,
{
}

proof fn lemma_high_nibble(byte: u8)
    by (bit_vector)
    ensures
        ((byte / 0x80) % 2) * 0x80 + ((byte / 0x40) % 2) * 0x40 + ((byte / 0x20) % 2) * 0x20 + ((
        byte / 0x10) % 2) * 0x10 == byte - byte % 16,
{
}

/// Packing the flags that a byte holds gives the byte without its low
/// nibble.
pub proof fn lemma_flags_of_byte(byte: u8)
    ensures
        Flags::from_byte_spec(byte).byte_spec() == byte - byte % 16,
{
    lemma_high_nibble(byte);
}

/// A pair reads back what it was given; of AF the low nibble is lost.
pub proof fn lemma_pair_round_trip<M>(state: CpuState<M>, pair: RegisterPair, value: u16)
    ensures
        pair != RegisterPair::AF ==> state.with_pair(pair, value).pair(pair) == value,
        state.with_pair(RegisterPair::AF, value).pair(RegisterPair::AF) == value - value % 16,
{
    lemma_flags_of_byte(low_byte(value));
    assert(word(high_byte(value), low_byte(value)) == value);
    assert(value % 16 == low_byte(value) % 16) by {
        vstd::arithmetic::div_mod::lemma_mod_mod(value as int, 16, 16);
    }
}

impl<B: Bus> Cpu<B> {
    /// The byte at the program counter, and the state after it is
    /// fetched: one machine cycle later, the program counter one further.
    pub open spec fn fetch8_spec(state: CpuState<B::V>) -> (u8, CpuState<B::V>) {
        (
            B::peek_spec(state.bus, state.registers.pc),
            state.with_bus(B::tick_spec(state.bus)).with_pc(next_address(state.registers.pc)),
        )
    }

    /// The little-endian word at the program counter, and the state after
    /// it is fetched: two machine cycles later, the program counter two
    /// further.
    pub open spec fn fetch16_spec(state: CpuState<B::V>) -> (u16, CpuState<B::V>) {
        let (value, bus) = read_word_spec::<B>(state.bus, state.registers.pc);
        (value, state.with_bus(bus).with_pc(next_address(next_address(state.registers.pc))))
    }

    /// The state after `value` is pushed: the stack pointer two lower, and
    /// the word stored there, low byte first.
    pub open spec fn push_spec(state: CpuState<B::V>, value: u16) -> CpuState<B::V> {
        let sp = crate::cpu::alu::displaced(state.registers.sp, -2);
        CpuState {
            registers: Registers { sp, ..state.registers },
            bus: write_word_spec::<B>(state.bus, sp, value),
            ..state
        }
    }

    /// The word on top of the stack, and the state after it is popped:
    /// the stack pointer two higher.
    pub open spec fn pop_spec(state: CpuState<B::V>) -> (u16, CpuState<B::V>) {
        let (value, bus) = read_word_spec::<B>(state.bus, state.registers.sp);
        (
            value,
            CpuState {
                registers: Registers {
                    sp: crate::cpu::alu::displaced(state.registers.sp, 2),
                    ..state.registers
                },
                bus,
                ..state
            },
        )
    }

    /// The state that the boot ROM leaves behind.
    pub open spec fn post_boot_spec(state: CpuState<B::V>) -> CpuState<B::V> {
        CpuState {
            registers: post_boot_registers(),
            flags: post_boot_flags(),
            bus: B::post_boot_spec(state.bus),
            ..state
        }
    }

    /// A processor on `bus`, with every register and flag zero and
    /// interrupts disabled.
    #[must_use]
    pub fn new(bus: B) -> (cpu: Self)
        ensures
            cpu@ == (CpuState {
                registers: Registers {
                    a: 0,
                    b: 0,
                    c: 0,
                    d: 0,
                    e: 0,
                    h: 0,
                    l: 0,
                    pc: 0,
                    sp: 0,
                },
                flags: Flags { z: false, c: false, n: false, h: false },
                ime: false,
                ime_delayed: false,
                halted: false,
                bus: bus@,
            }),
    {
        Cpu {
            registers: Registers::new(),
            flags: Flags::new(),
            ime: false,
            ime_delayed: false,
            halted: false,
            bus,
        }
    }

    /// Puts the processor and its peripherals in the state that the boot
    /// ROM leaves behind, for a start without one.
    pub fn set_post_boot_state(&mut self)
        ensures
            final(self)@ == Self::post_boot_spec(old(self)@),
    {
        self.registers = Registers {
            a: 0x01,
            b: 0x00,
            c: 0x13,
            d: 0x00,
            e: 0xD8,
            h: 0x01,
            l: 0x4D,
            pc: 0x0100,
            sp: 0xFFFE,
        };
        self.flags = Flags { z: true, n: false, h: true, c: true };
        self.bus.set_post_boot_state();
    }

    /// Reads a register pair.
    #[must_use]
    pub fn get_register_pair(&self, rp: &RegisterPair) -> (value: u16)
        ensures
            value == self@.pair(*rp),
            *rp == RegisterPair::AF ==> value % 16 == 0,
    {
        let (high, low) = match rp {
            RegisterPair::BC => (self.registers.b, self.registers.c),
            RegisterPair::DE => (self.registers.d, self.registers.e),
            RegisterPair::HL => (self.registers.h, self.registers.l),
            RegisterPair::AF => (self.registers.a, self.flags.to_byte()),
            RegisterPair::SP => {
                return self.registers.sp;
            },
        };
        proof {
            lemma_word_of_bytes(high, low);
        }
        (high as u16) << 8 | (low as u16)
    }

    /// Writes a register pair. Of a value written to AF the low nibble is
    /// dropped.
    pub fn set_register_pair(&mut self, rp: &RegisterPair, value: u16)
        ensures
            final(self)@ == old(self)@.with_pair(*rp, value),
    {
        proof {
            lemma_bytes_of_word(value);
        }
        let high = (value >> 8) as u8;
        let low = (value & 0xFF) as u8;
        match rp {
            RegisterPair::AF => {
                self.registers.a = high;
                self.flags = Flags::from_byte(low);
            },
            RegisterPair::BC => {
                self.registers.b = high;
                self.registers.c = low;
            },
            RegisterPair::DE => {
                self.registers.d = high;
                self.registers.e = low;
            },
            RegisterPair::HL => {
                self.registers.h = high;
                self.registers.l = low;
            },
            RegisterPair::SP => self.registers.sp = value,
        }
    }

    /// Fetches the byte at the program counter.
    pub fn fetch_imm8(&mut self) -> (value: u8)
        ensures
            value == Self::fetch8_spec(old(self)@).0,
            final(self)@ == Self::fetch8_spec(old(self)@).1,
    {
        let value = self.bus.read_byte(self.registers.pc);
        self.registers.pc = self.registers.pc.wrapping_add(1);
        value
    }

    /// Fetches the word at the program counter.
    pub fn fetch_imm16(&mut self) -> (value: u16)
        ensures
            value == Self::fetch16_spec(old(self)@).0,
            final(self)@ == Self::fetch16_spec(old(self)@).1,
    {
        let value = self.bus.read_word(self.registers.pc);
        self.registers.pc = self.registers.pc.wrapping_add(2);
        value
    }

    /// Fetches the opcode at the program counter.
    pub fn fetch(&mut self) -> (opcode: u8)
        ensures
            opcode == Self::fetch8_spec(old(self)@).0,
            final(self)@ == Self::fetch8_spec(old(self)@).1,
    {
        self.fetch_imm8()
    }

    /// Pushes `value` on the stack.
    pub fn push(&mut self, value: u16)
        ensures
            final(self)@ == Self::push_spec(old(self)@, value),
    {
        self.registers.sp = self.registers.sp.wrapping_sub(2);
        self.bus.write_word(self.registers.sp, value);
    }

    /// Pops the word on top of the stack.
    pub fn pop(&mut self) -> (value: u16)
        ensures
            value == Self::pop_spec(old(self)@).0,
            final(self)@ == Self::pop_spec(old(self)@).1,
    {
        let value = self.bus.read_word(self.registers.sp);
        self.registers.sp = self.registers.sp.wrapping_add(2);
        value
    }
}

} // verus!
