use crate::bus::{write_spec, write_word_spec, Bus};
use crate::cpu::alu::{
    add16_spec, add_offset_spec, arithmetic_spec, bit_spec, clear_bit_spec, cpl_spec, daa_spec,
    dec_spec, displaced, inc_spec, rotate_a_spec, set_bit_spec, shift_spec, unsigned, Arithmetic,
    Shift,
};
use crate::cpu::{Condition, Cpu, CpuState, Flags, Instruction, Operand, Register, RegisterPair};
use vstd::prelude::*;

verus! {

/// First address of the page that the short loads and stores reach.
pub const HIGH_PAGE: u16 = 0xFF00;

impl Register {
    /// By how much HL moves after this operand is used.
    pub open spec fn step(self) -> int {
        match self {
            Register::IncrementHL => 1,
            Register::DecrementHL => -1,
            _ => 0,
        }
    }

    /// Whether this operand is one of the seven registers.
    pub fn direct(&self) -> (direct: bool)
        ensures
            direct == self.is_direct(),
    {
        match self {
            Register::IndirectHL | Register::DecrementHL | Register::IncrementHL
            | Register::IndirectC => false,
            _ => true,
        }
    }
}

impl Operand {
    /// Whether this operand is one of the seven registers.
    pub open spec fn is_register(self) -> bool {
        self matches Operand::Register(register) && register.is_direct()
    }

    /// Whether this operand is a byte of memory.
    pub open spec fn is_memory(self) -> bool {
        match self {
            Operand::Register(register) => !register.is_direct(),
            Operand::RegisterIndirect(_) => true,
            Operand::IndirectImmediate8(_) => true,
            Operand::IndirectImmediate16(_) => true,
            _ => false,
        }
    }

    /// Whether a byte can be stored in this operand.
    pub open spec fn is_byte_place(self) -> bool {
        self.is_register() || self.is_memory()
    }

    /// Whether a byte can be taken from this operand.
    pub open spec fn is_byte_source(self) -> bool {
        self.is_byte_place() || self is Immediate8
    }

    /// Whether this operand is one that an arithmetic instruction takes:
    /// a register, the byte at HL, or an immediate byte.
    pub open spec fn is_basic(self) -> bool {
        match self {
            Operand::Register(register) => register.is_basic(),
            Operand::Immediate8(_) => true,
            _ => false,
        }
    }

    /// By how much HL moves after this operand is used.
    pub open spec fn step(self) -> int {
        match self {
            Operand::Register(register) => register.step(),
            _ => 0,
        }
    }

    /// Whether a byte can go from `source` to this operand in one load:
    /// one end is a register, or an immediate byte goes to the byte at HL;
    /// and where HL moves, the other end is the accumulator.
    pub open spec fn loads_byte_from(self, source: Operand) -> bool {
        &&& self.is_byte_place()
        &&& source.is_byte_source()
        &&& self.is_register() || source.is_register() || (self == Operand::Register(
            Register::IndirectHL,
        ) && source is Immediate8)
        &&& self.step() != 0 ==> source == Operand::Register(Register::A)
        &&& source.step() != 0 ==> self == Operand::Register(Register::A)
    }

    /// Whether a word can go from `source` to this operand in one load.
    pub open spec fn loads_word_from(self, source: Operand) -> bool {
        match (self, source) {
            (Operand::RegisterPair(_), Operand::Immediate16(_)) => true,
            (Operand::RegisterPair(_), Operand::RegisterPair(_)) => true,
            (Operand::RegisterPair(RegisterPair::HL), Operand::StackOffset(_)) => true,
            (Operand::IndirectImmediate16(_), Operand::RegisterPair(_)) => true,
            _ => false,
        }
    }
}

impl Instruction {
    /// Loads, pushes and pops: the instructions that move data.
    pub open spec fn is_transfer(self) -> bool {
        self is Ld || self is Push || self is Pop
    }

    /// Arithmetic and logic between the accumulator and an operand, the
    /// additions to a pair, increments and decrements.
    pub open spec fn is_arithmetic(self) -> bool {
        self is Add || self is Adc || self is Sub || self is Sbc || self is And || self is Xor
            || self is Or || self is Cp || self is Inc || self is Dec
    }

    /// The instructions without an operand that work on the accumulator
    /// or on the flags.
    pub open spec fn is_accumulator(self) -> bool {
        self is Rlca || self is Rrca || self is Rla || self is Rra || self is Daa || self is Cpl
            || self is Scf || self is Ccf
    }

    /// The instructions of the second table: rotations, shifts and the
    /// three bit operations.
    pub open spec fn is_bitwise(self) -> bool {
        self is Rlc || self is Rrc || self is Rl || self is Rr || self is Sla || self is Sra
            || self is Swap || self is Srl || self is Bit || self is Res || self is SetBit
    }

    /// Jumps, calls, returns, and the instructions that change how the
    /// processor runs.
    pub open spec fn is_control(self) -> bool {
        !self.is_transfer() && !self.is_arithmetic() && !self.is_accumulator()
            && !self.is_bitwise()
    }

    /// Whether the operands are of the kinds that the instruction takes.
    /// Every instruction that an opcode stands for is valid.
    pub open spec fn valid(self) -> bool {
        match self {
            Instruction::Ld(target, source) => target.loads_byte_from(source)
                || target.loads_word_from(source),
            Instruction::Add(target, source) => (target == Operand::Register(Register::A)
                && source.is_basic()) || (target is RegisterPair && (source is RegisterPair
                || source is Immediate8)),
            Instruction::Adc(source)
            | Instruction::Sub(source)
            | Instruction::Sbc(source)
            | Instruction::And(source)
            | Instruction::Xor(source)
            | Instruction::Or(source)
            | Instruction::Cp(source) => source.is_basic(),
            Instruction::Inc(operand) | Instruction::Dec(operand) => operand is RegisterPair || (
            operand matches Operand::Register(register) && register.is_basic()),
            Instruction::Rlc(register)
            | Instruction::Rrc(register)
            | Instruction::Rl(register)
            | Instruction::Rr(register)
            | Instruction::Sla(register)
            | Instruction::Sra(register)
            | Instruction::Swap(register)
            | Instruction::Srl(register) => register.is_basic(),
            Instruction::Bit(index, register)
            | Instruction::Res(index, register)
            | Instruction::SetBit(index, register) => index < 8 && register.is_basic(),
            Instruction::Jp(_, target) => target is Immediate16 || target == Operand::RegisterPair(
                RegisterPair::HL,
            ),
            _ => true,
        }
    }
}

/// Whether a jump under `condition` is taken with the given flags.
pub open spec fn condition_spec(flags: Flags, condition: Condition) -> bool {
    match condition {
        Condition::Always => true,
        Condition::Zero => flags.z,
        Condition::NonZero => !flags.z,
        Condition::Carry => flags.c,
        Condition::NonCarry => !flags.c,
    }
}

impl<B: Bus> Cpu<B> {
    /// The address of a memory operand.
    pub open spec fn address_spec(state: CpuState<B::V>, operand: Operand) -> u16 {
        match operand {
            Operand::Register(Register::IndirectC) => (HIGH_PAGE + state.registers.c) as u16,
            Operand::Register(_) => state.pair(RegisterPair::HL),
            Operand::RegisterIndirect(pair) => state.pair(pair),
            Operand::IndirectImmediate8(offset) => (HIGH_PAGE + offset) as u16,
            Operand::IndirectImmediate16(address) => address,
            _ => 0,
        }
    }

    /// The byte that an operand holds, and the state after it is taken: a
    /// byte of memory costs one bus read.
    pub open spec fn load_spec(state: CpuState<B::V>, operand: Operand) -> (u8, CpuState<B::V>) {
        match operand {
            Operand::Immediate8(value) => (value, state),
            _ => if operand.is_register() {
                (state.registers.get_spec(operand->Register_0), state)
            } else {
                (
                    B::peek_spec(state.bus, Self::address_spec(state, operand)),
                    state.with_bus(B::tick_spec(state.bus)),
                )
            },
        }
    }

    /// The state after a byte is put in an operand: a byte of memory costs
    /// one bus write.
    pub open spec fn store_spec(state: CpuState<B::V>, operand: Operand, value: u8) -> CpuState<
        B::V,
    > {
        if operand.is_register() {
            state.with_register(operand->Register_0, value)
        } else {
            state.with_bus(write_spec::<B>(state.bus, Self::address_spec(state, operand), value))
        }
    }

    /// The state after HL has moved by `step`.
    pub open spec fn adjust_spec(state: CpuState<B::V>, step: int) -> CpuState<B::V> {
        if step == 0 {
            state
        } else {
            state.with_pair(RegisterPair::HL, displaced(state.pair(RegisterPair::HL), step))
        }
    }

    /// A load. A byte is taken from the source and put in the target, and
    /// then HL moves if either operand asks for it. A word goes to a pair,
    /// or from a pair to memory; the stack pointer plus an offset sets the
    /// flags before it goes to HL.
    pub open spec fn ld_spec(state: CpuState<B::V>, target: Operand, source: Operand) -> CpuState<
        B::V,
    > {
        if target.loads_word_from(source) {
            match (target, source) {
                (Operand::RegisterPair(pair), Operand::Immediate16(value)) => state.with_pair(
                    pair,
                    value,
                ),
                (Operand::RegisterPair(pair), Operand::RegisterPair(from)) => state.with_pair(
                    pair,
                    state.pair(from),
                ),
                (Operand::RegisterPair(pair), Operand::StackOffset(offset)) => {
                    let out = add_offset_spec(state.registers.sp, unsigned(offset));
                    state.with_flags(out.flags).with_pair(pair, out.value)
                },
                (Operand::IndirectImmediate16(address), Operand::RegisterPair(from)) => {
                    state.with_bus(write_word_spec::<B>(state.bus, address, state.pair(from)))
                },
                _ => state,
            }
        } else {
            let (value, loaded) = Self::load_spec(state, source);
            let stored = Self::store_spec(loaded, target, value);
            Self::adjust_spec(stored, target.step() + source.step())
        }
    }

    /// One of the eight operations between the accumulator and an operand:
    /// the result goes to the accumulator, the flags are those of the
    /// operation.
    pub open spec fn arithmetic_spec(
        state: CpuState<B::V>,
        kind: Arithmetic,
        source: Operand,
    ) -> CpuState<B::V> {
        let (value, loaded) = Self::load_spec(state, source);
        let out = arithmetic_spec(kind, state.registers.a, value, state.flags);
        loaded.with_register(Register::A, out.value).with_flags(out.flags)
    }

    /// An addition to a pair: of another pair, or of a signed byte.
    pub open spec fn add_wide_spec(
        state: CpuState<B::V>,
        pair: RegisterPair,
        source: Operand,
    ) -> CpuState<B::V> {
        let out = match source {
            Operand::Immediate8(offset) => add_offset_spec(state.pair(pair), offset),
            Operand::RegisterPair(from) => add16_spec(
                state.pair(pair),
                state.pair(from),
                state.flags,
            ),
            _ => arbitrary(),
        };
        state.with_flags(out.flags).with_pair(pair, out.value)
    }

    /// An increment (`by` is 1) or a decrement (`by` is -1). On a pair no
    /// flag changes. On a byte the carry flag stays.
    pub open spec fn count_spec(state: CpuState<B::V>, operand: Operand, by: int) -> CpuState<
        B::V,
    > {
        match operand {
            Operand::RegisterPair(pair) => state.with_pair(
                pair,
                displaced(state.pair(pair), by),
            ),
            _ => {
                let (value, loaded) = Self::load_spec(state, operand);
                let out = if by == 1 {
                    inc_spec(value, state.flags)
                } else {
                    dec_spec(value, state.flags)
                };
                Self::store_spec(loaded, operand, out.value).with_flags(out.flags)
            },
        }
    }

    /// A rotation or shift of a register or of the byte at HL.
    pub open spec fn shift_spec(state: CpuState<B::V>, kind: Shift, register: Register) -> CpuState<
        B::V,
    > {
        let operand = Operand::Register(register);
        let (value, loaded) = Self::load_spec(state, operand);
        let out = shift_spec(kind, value, state.flags);
        Self::store_spec(loaded, operand, out.value).with_flags(out.flags)
    }

    /// A rotation of the accumulator by one of the four short opcodes.
    pub open spec fn rotate_a_spec(state: CpuState<B::V>, kind: Shift) -> CpuState<B::V> {
        let out = rotate_a_spec(kind, state.registers.a, state.flags);
        state.with_register(Register::A, out.value).with_flags(out.flags)
    }

    /// A test of a bit of a register or of the byte at HL.
    pub open spec fn bit_spec(state: CpuState<B::V>, index: u8, register: Register) -> CpuState<
        B::V,
    > {
        let (value, loaded) = Self::load_spec(state, Operand::Register(register));
        loaded.with_flags(bit_spec(index, value, state.flags))
    }

    /// A bit of a register or of the byte at HL is set (`on`) or cleared;
    /// no flag changes.
    pub open spec fn change_bit_spec(
        state: CpuState<B::V>,
        index: u8,
        register: Register,
        on: bool,
    ) -> CpuState<B::V> {
        let operand = Operand::Register(register);
        let (value, loaded) = Self::load_spec(state, operand);
        Self::store_spec(
            loaded,
            operand,
            if on {
                set_bit_spec(index, value)
            } else {
                clear_bit_spec(index, value)
            },
        )
    }

    /// A call: the program counter is pushed and replaced.
    pub open spec fn call_spec(state: CpuState<B::V>, target: u16) -> CpuState<B::V> {
        Self::push_spec(state, state.registers.pc).with_pc(target)
    }

    /// A return: the program counter is popped.
    pub open spec fn ret_spec(state: CpuState<B::V>) -> CpuState<B::V> {
        let (target, popped) = Self::pop_spec(state);
        popped.with_pc(target)
    }

    /// Where a jump goes.
    pub open spec fn jump_target_spec(state: CpuState<B::V>, target: Operand) -> u16 {
        match target {
            Operand::Immediate16(address) => address,
            _ => state.pair(RegisterPair::HL),
        }
    }

    /// The state after an instruction is executed.
    ///
    /// Memory is reached through the bus only, and every access costs one
    /// machine cycle. The stop instruction does nothing. The
    /// enable-interrupts instruction sets the delayed enable only; the
    /// return from an interrupt sets the master enable at once.
    pub open spec fn execute_spec(state: CpuState<B::V>, instruction: Instruction) -> CpuState<
        B::V,
    > {
        match instruction {
            Instruction::Nop | Instruction::Stop => state,
            Instruction::Halt => CpuState { halted: true, ..state },
            Instruction::Ei => CpuState { ime_delayed: true, ..state },
            Instruction::Di => CpuState { ime: false, ime_delayed: false, ..state },
            Instruction::Ld(target, source) => Self::ld_spec(state, target, source),
            Instruction::Add(Operand::RegisterPair(pair), source) => Self::add_wide_spec(
                state,
                pair,
                source,
            ),
            Instruction::Add(_, source) => Self::arithmetic_spec(state, Arithmetic::Add, source),
            Instruction::Adc(source) => Self::arithmetic_spec(state, Arithmetic::Adc, source),
            Instruction::Sub(source) => Self::arithmetic_spec(state, Arithmetic::Sub, source),
            Instruction::Sbc(source) => Self::arithmetic_spec(state, Arithmetic::Sbc, source),
            Instruction::And(source) => Self::arithmetic_spec(state, Arithmetic::And, source),
            Instruction::Xor(source) => Self::arithmetic_spec(state, Arithmetic::Xor, source),
            Instruction::Or(source) => Self::arithmetic_spec(state, Arithmetic::Or, source),
            Instruction::Cp(source) => Self::arithmetic_spec(state, Arithmetic::Cp, source),
            Instruction::Inc(operand) => Self::count_spec(state, operand, 1),
            Instruction::Dec(operand) => Self::count_spec(state, operand, -1),
            Instruction::Rlc(register) => Self::shift_spec(state, Shift::Rlc, register),
            Instruction::Rrc(register) => Self::shift_spec(state, Shift::Rrc, register),
            Instruction::Rl(register) => Self::shift_spec(state, Shift::Rl, register),
            Instruction::Rr(register) => Self::shift_spec(state, Shift::Rr, register),
            Instruction::Sla(register) => Self::shift_spec(state, Shift::Sla, register),
            Instruction::Sra(register) => Self::shift_spec(state, Shift::Sra, register),
            Instruction::Swap(register) => Self::shift_spec(state, Shift::Swap, register),
            Instruction::Srl(register) => Self::shift_spec(state, Shift::Srl, register),
            Instruction::Rlca => Self::rotate_a_spec(state, Shift::Rlc),
            Instruction::Rrca => Self::rotate_a_spec(state, Shift::Rrc),
            Instruction::Rla => Self::rotate_a_spec(state, Shift::Rl),
            Instruction::Rra => Self::rotate_a_spec(state, Shift::Rr),
            Instruction::Bit(index, register) => Self::bit_spec(state, index, register),
            Instruction::Res(index, register) => Self::change_bit_spec(
                state,
                index,
                register,
                false,
            ),
            Instruction::SetBit(index, register) => Self::change_bit_spec(
                state,
                index,
                register,
                true,
            ),
            Instruction::Daa => {
                let out = daa_spec(state.registers.a, state.flags);
                state.with_register(Register::A, out.value).with_flags(out.flags)
            },
            Instruction::Cpl => {
                let out = cpl_spec(state.registers.a, state.flags);
                state.with_register(Register::A, out.value).with_flags(out.flags)
            },
            Instruction::Scf => state.with_flags(
                Flags { n: false, h: false, c: true, ..state.flags },
            ),
            Instruction::Ccf => state.with_flags(
                Flags { n: false, h: false, c: !state.flags.c, ..state.flags },
            ),
            Instruction::Push(pair) => Self::push_spec(state, state.pair(pair)),
            Instruction::Pop(pair) => {
                let (value, popped) = Self::pop_spec(state);
                popped.with_pair(pair, value)
            },
            Instruction::Rst(target) => Self::call_spec(state, target as u16),
            Instruction::Call(condition, target) => if condition_spec(state.flags, condition) {
                Self::call_spec(state, target)
            } else {
                state
            },
            Instruction::Jp(condition, target) => if condition_spec(state.flags, condition) {
                state.with_pc(Self::jump_target_spec(state, target))
            } else {
                state
            },
            Instruction::Jr(condition, offset) => if condition_spec(state.flags, condition) {
                state.with_pc(displaced(state.registers.pc, offset as int))
            } else {
                state
            },
            Instruction::Ret(condition) => if condition_spec(state.flags, condition) {
                Self::ret_spec(state)
            } else {
                state
            },
            Instruction::Reti => CpuState { ime: true, ..Self::ret_spec(state) },
        }
    }

    fn operand_address(&self, operand: Operand) -> (address: u16)
        ensures
            address == Self::address_spec(self@, operand),
    {
        match operand {
            Operand::Register(Register::IndirectC) => HIGH_PAGE + self.registers.c as u16,
            Operand::Register(_) => self.get_register_pair(&RegisterPair::HL),
            Operand::RegisterIndirect(pair) => self.get_register_pair(&pair),
            Operand::IndirectImmediate8(offset) => HIGH_PAGE + offset as u16,
            Operand::IndirectImmediate16(address) => address,
            _ => 0,
        }
    }

    fn load(&mut self, operand: Operand) -> (value: u8)
        requires
            operand.is_byte_source(),
        ensures
            value == Self::load_spec(old(self)@, operand).0,
            final(self)@ == Self::load_spec(old(self)@, operand).1,
    {
        match operand {
            Operand::Immediate8(value) => value,
            Operand::Register(register) if register.direct() => self.registers.get(register),
            _ => {
                let address = self.operand_address(operand);
                self.bus.read_byte(address)
            },
        }
    }

    fn store(&mut self, operand: Operand, value: u8)
        requires
            operand.is_byte_place(),
        ensures
            final(self)@ == Self::store_spec(old(self)@, operand, value),
    {
        match operand {
            Operand::Register(register) if register.direct() => self.registers.set(register, value),
            _ => {
                let address = self.operand_address(operand);
                self.bus.write_byte(address, value);
            },
        }
    }

    fn adjust(&mut self, target: Operand, source: Operand)
        requires
            target.step() == 0 || source.step() == 0,
        ensures
            final(self)@ == Self::adjust_spec(old(self)@, target.step() + source.step()),
    {
        let step: i8 = match (target, source) {
            (Operand::Register(Register::IncrementHL), _)
            | (_, Operand::Register(Register::IncrementHL)) => 1,
            (Operand::Register(Register::DecrementHL), _)
            | (_, Operand::Register(Register::DecrementHL)) => -1,
            _ => 0,
        };
        if step != 0 {
            let hl = self.get_register_pair(&RegisterPair::HL);
            self.set_register_pair(&RegisterPair::HL, crate::cpu::alu::displace(hl, step));
        }
    }

    fn load_instruction(&mut self, target: Operand, source: Operand)
        requires
            target.loads_byte_from(source) || target.loads_word_from(source),
        ensures
            final(self)@ == Self::ld_spec(old(self)@, target, source),
    {
        match (target, source) {
            (Operand::RegisterPair(pair), Operand::Immediate16(value)) => {
                self.set_register_pair(&pair, value);
            },
            (Operand::RegisterPair(pair), Operand::RegisterPair(from)) => {
                let value = self.get_register_pair(&from);
                self.set_register_pair(&pair, value);
            },
            (Operand::RegisterPair(pair), Operand::StackOffset(offset)) => {
                let out = crate::cpu::alu::add_offset(
                    self.registers.sp,
                    crate::cpu::alu::to_unsigned(offset),
                );
                self.flags = out.flags;
                self.set_register_pair(&pair, out.value);
            },
            (Operand::IndirectImmediate16(address), Operand::RegisterPair(from)) => {
                let value = self.get_register_pair(&from);
                self.bus.write_word(address, value);
            },
            _ => {
                let value = self.load(source);
                self.store(target, value);
                self.adjust(target, source);
            },
        }
    }

    fn arithmetic_instruction(&mut self, kind: Arithmetic, source: Operand)
        requires
            source.is_basic(),
        ensures
            final(self)@ == Self::arithmetic_spec(old(self)@, kind, source),
    {
        let value = self.load(source);
        let out = crate::cpu::alu::arithmetic(kind, self.registers.a, value, self.flags);
        self.registers.a = out.value;
        self.flags = out.flags;
    }

    fn add_wide(&mut self, pair: RegisterPair, source: Operand)
        requires
            source is RegisterPair || source is Immediate8,
        ensures
            final(self)@ == Self::add_wide_spec(old(self)@, pair, source),
    {
        let base = self.get_register_pair(&pair);
        let out = match source {
            Operand::RegisterPair(from) => crate::cpu::alu::add16(
                base,
                self.get_register_pair(&from),
                self.flags,
            ),
            Operand::Immediate8(offset) => crate::cpu::alu::add_offset(base, offset),
            _ => crate::cpu::alu::add_offset(base, 0),
        };
        self.flags = out.flags;
        self.set_register_pair(&pair, out.value);
    }

    fn step_instruction(&mut self, operand: Operand, up: bool)
        requires
            operand is RegisterPair || (operand matches Operand::Register(register)
                && register.is_basic()),
        ensures
            final(self)@ == Self::count_spec(
                old(self)@,
                operand,
                if up {
                    1
                } else {
                    -1
                },
            ),
    {
        match operand {
            Operand::RegisterPair(pair) => {
                let value = self.get_register_pair(&pair);
                self.set_register_pair(
                    &pair,
                    crate::cpu::alu::displace(
                        value,
                        if up {
                            1
                        } else {
                            -1
                        },
                    ),
                );
            },
            _ => {
                let flags = self.flags;
                let value = self.load(operand);
                let out = if up {
                    crate::cpu::alu::inc(value, flags)
                } else {
                    crate::cpu::alu::dec(value, flags)
                };
                self.store(operand, out.value);
                self.flags = out.flags;
            },
        }
    }

    fn shift_instruction(&mut self, kind: Shift, register: Register)
        requires
            register.is_basic(),
        ensures
            final(self)@ == Self::shift_spec(old(self)@, kind, register),
    {
        let flags = self.flags;
        let value = self.load(Operand::Register(register));
        let out = crate::cpu::alu::shift(kind, value, flags);
        self.store(Operand::Register(register), out.value);
        self.flags = out.flags;
    }

    fn rotate_accumulator(&mut self, kind: Shift)
        ensures
            final(self)@ == Self::rotate_a_spec(old(self)@, kind),
    {
        let out = crate::cpu::alu::rotate_a(kind, self.registers.a, self.flags);
        self.registers.a = out.value;
        self.flags = out.flags;
    }

    fn bit_instruction(&mut self, index: u8, register: Register)
        requires
            index < 8,
            register.is_basic(),
        ensures
            final(self)@ == Self::bit_spec(old(self)@, index, register),
    {
        let flags = self.flags;
        let value = self.load(Operand::Register(register));
        self.flags = crate::cpu::alu::bit_test(index, value, flags);
    }

    fn change_bit(&mut self, index: u8, register: Register, on: bool)
        requires
            index < 8,
            register.is_basic(),
        ensures
            final(self)@ == Self::change_bit_spec(old(self)@, index, register, on),
    {
        let value = self.load(Operand::Register(register));
        let changed = if on {
            crate::cpu::alu::set_bit(index, value)
        } else {
            crate::cpu::alu::clear_bit(index, value)
        };
        self.store(Operand::Register(register), changed);
    }

    fn condition(&self, condition: Condition) -> (taken: bool)
        ensures
            taken == condition_spec(self.flags, condition),
    {
        match condition {
            Condition::Always => true,
            Condition::Carry => self.flags.c,
            Condition::NonCarry => !self.flags.c,
            Condition::Zero => self.flags.z,
            Condition::NonZero => !self.flags.z,
        }
    }

    fn call(&mut self, target: u16)
        ensures
            final(self)@ == Self::call_spec(old(self)@, target),
    {
        self.push(self.registers.pc);
        self.registers.pc = target;
    }

    fn ret(&mut self)
        ensures
            final(self)@ == Self::ret_spec(old(self)@),
    {
        self.registers.pc = self.pop();
    }

    fn execute_transfer(&mut self, instruction: Instruction)
        requires
            instruction.valid(),
            instruction.is_transfer(),
        ensures
            final(self)@ == Self::execute_spec(old(self)@, instruction),
    {
        match instruction {
            Instruction::Ld(target, source) => self.load_instruction(target, source),
            Instruction::Push(pair) => {
                let value = self.get_register_pair(&pair);
                self.push(value);
            },
            Instruction::Pop(pair) => {
                let value = self.pop();
                self.set_register_pair(&pair, value);
            },
            _ => {},
        }
    }

    fn execute_arithmetic(&mut self, instruction: Instruction)
        requires
            instruction.valid(),
            instruction.is_arithmetic(),
        ensures
            final(self)@ == Self::execute_spec(old(self)@, instruction),
    {
        match instruction {
            Instruction::Add(Operand::RegisterPair(pair), source) => self.add_wide(pair, source),
            Instruction::Add(_, source) => self.arithmetic_instruction(Arithmetic::Add, source),
            Instruction::Adc(source) => self.arithmetic_instruction(Arithmetic::Adc, source),
            Instruction::Sub(source) => self.arithmetic_instruction(Arithmetic::Sub, source),
            Instruction::Sbc(source) => self.arithmetic_instruction(Arithmetic::Sbc, source),
            Instruction::And(source) => self.arithmetic_instruction(Arithmetic::And, source),
            Instruction::Xor(source) => self.arithmetic_instruction(Arithmetic::Xor, source),
            Instruction::Or(source) => self.arithmetic_instruction(Arithmetic::Or, source),
            Instruction::Cp(source) => self.arithmetic_instruction(Arithmetic::Cp, source),
            Instruction::Inc(operand) => self.step_instruction(operand, true),
            Instruction::Dec(operand) => self.step_instruction(operand, false),
            _ => {},
        }
    }

    fn execute_accumulator(&mut self, instruction: Instruction)
        requires
            instruction.is_accumulator(),
        ensures
            final(self)@ == Self::execute_spec(old(self)@, instruction),
    {
        match instruction {
            Instruction::Rlca => self.rotate_accumulator(Shift::Rlc),
            Instruction::Rrca => self.rotate_accumulator(Shift::Rrc),
            Instruction::Rla => self.rotate_accumulator(Shift::Rl),
            Instruction::Rra => self.rotate_accumulator(Shift::Rr),
            Instruction::Daa => {
                let out = crate::cpu::alu::daa(self.registers.a, self.flags);
                self.registers.a = out.value;
                self.flags = out.flags;
            },
            Instruction::Cpl => {
                let out = crate::cpu::alu::cpl(self.registers.a, self.flags);
                self.registers.a = out.value;
                self.flags = out.flags;
            },
            Instruction::Scf => {
                self.flags.n = false;
                self.flags.h = false;
                self.flags.c = true;
            },
            Instruction::Ccf => {
                self.flags.n = false;
                self.flags.h = false;
                self.flags.c = !self.flags.c;
            },
            _ => {},
        }
    }

    fn execute_bits(&mut self, instruction: Instruction)
        requires
            instruction.valid(),
            instruction.is_bitwise(),
        ensures
            final(self)@ == Self::execute_spec(old(self)@, instruction),
    {
        match instruction {
            Instruction::Rlc(register) => self.shift_instruction(Shift::Rlc, register),
            Instruction::Rrc(register) => self.shift_instruction(Shift::Rrc, register),
            Instruction::Rl(register) => self.shift_instruction(Shift::Rl, register),
            Instruction::Rr(register) => self.shift_instruction(Shift::Rr, register),
            Instruction::Sla(register) => self.shift_instruction(Shift::Sla, register),
            Instruction::Sra(register) => self.shift_instruction(Shift::Sra, register),
            Instruction::Swap(register) => self.shift_instruction(Shift::Swap, register),
            Instruction::Srl(register) => self.shift_instruction(Shift::Srl, register),
            Instruction::Bit(index, register) => self.bit_instruction(index, register),
            Instruction::Res(index, register) => self.change_bit(index, register, false),
            Instruction::SetBit(index, register) => self.change_bit(index, register, true),
            _ => {},
        }
    }

    fn execute_control(&mut self, instruction: Instruction)
        requires
            instruction.valid(),
            instruction.is_control(),
        ensures
            final(self)@ == Self::execute_spec(old(self)@, instruction),
    {
        match instruction {
            Instruction::Halt => self.halted = true,
            Instruction::Ei => self.ime_delayed = true,
            Instruction::Di => {
                self.ime = false;
                self.ime_delayed = false;
            },
            Instruction::Rst(target) => self.call(target as u16),
            Instruction::Call(condition, target) => {
                if self.condition(condition) {
                    self.call(target);
                }
            },
            Instruction::Jp(condition, target) => {
                if self.condition(condition) {
                    self.registers.pc = match target {
                        Operand::Immediate16(address) => address,
                        _ => self.get_register_pair(&RegisterPair::HL),
                    };
                }
            },
            Instruction::Jr(condition, offset) => {
                if self.condition(condition) {
                    self.registers.pc = crate::cpu::alu::displace(self.registers.pc, offset);
                }
            },
            Instruction::Ret(condition) => {
                if self.condition(condition) {
                    self.ret();
                }
            },
            Instruction::Reti => {
                self.ret();
                self.ime = true;
            },
            _ => {},
        }
    }

    /// Executes a decoded instruction.
    pub fn execute(&mut self, instruction: Instruction)
        requires
            instruction.valid(),
        ensures
            final(self)@ == Self::execute_spec(old(self)@, instruction),
    {
        match instruction {
            Instruction::Ld(_, _) | Instruction::Push(_) | Instruction::Pop(_) => {
                self.execute_transfer(instruction)
            },
            Instruction::Add(_, _)
            | Instruction::Adc(_)
            | Instruction::Sub(_)
            | Instruction::Sbc(_)
            | Instruction::And(_)
            | Instruction::Xor(_)
            | Instruction::Or(_)
            | Instruction::Cp(_)
            | Instruction::Inc(_)
            | Instruction::Dec(_) => self.execute_arithmetic(instruction),
            Instruction::Rlca
            | Instruction::Rrca
            | Instruction::Rla
            | Instruction::Rra
            | Instruction::Daa
            | Instruction::Cpl
            | Instruction::Scf
            | Instruction::Ccf => self.execute_accumulator(instruction),
            Instruction::Rlc(_)
            | Instruction::Rrc(_)
            | Instruction::Rl(_)
            | Instruction::Rr(_)
            | Instruction::Sla(_)
            | Instruction::Sra(_)
            | Instruction::Swap(_)
            | Instruction::Srl(_)
            | Instruction::Bit(_, _)
            | Instruction::Res(_, _)
            | Instruction::SetBit(_, _) => self.execute_bits(instruction),
            _ => self.execute_control(instruction),
        }
    }
}

} // verus!
