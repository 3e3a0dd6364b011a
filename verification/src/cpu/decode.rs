use crate::bus::Bus;
use crate::cpu::alu::{signed, to_signed};
use crate::cpu::{Condition, Cpu, CpuState, Instruction, Operand, Register, RegisterPair};
use vstd::prelude::*;

verus! {

/// The opcode that selects the second table.
pub const PREFIX: u8 = 0xCB;

/// Bits 6 and 7 of an opcode: the quarter of the table it stands in.
pub open spec fn field_x(opcode: u8) -> int {
    opcode as int / 64
}

/// Bits 3 to 5 of an opcode.
pub open spec fn field_y(opcode: u8) -> int {
    (opcode as int / 8) % 8
}

/// Bits 0 to 2 of an opcode.
pub open spec fn field_z(opcode: u8) -> int {
    opcode as int % 8
}

/// Bits 4 and 5 of an opcode.
pub open spec fn field_p(opcode: u8) -> int {
    field_y(opcode) / 2
}

/// Bit 3 of an opcode.
pub open spec fn field_q(opcode: u8) -> int {
    field_y(opcode) % 2
}

/// The 8-bit operand that a three-bit field names, in the order B, C, D,
/// E, H, L, (HL), A.
pub open spec fn register_operand(index: int) -> Register {
    if index == 0 {
        Register::B
    } else if index == 1 {
        Register::C
    } else if index == 2 {
        Register::D
    } else if index == 3 {
        Register::E
    } else if index == 4 {
        Register::H
    } else if index == 5 {
        Register::L
    } else if index == 6 {
        Register::IndirectHL
    } else {
        Register::A
    }
}

/// The pair that a two-bit field names, in the order BC, DE, HL, SP.
pub open spec fn pair_operand(index: int) -> RegisterPair {
    if index == 0 {
        RegisterPair::BC
    } else if index == 1 {
        RegisterPair::DE
    } else if index == 2 {
        RegisterPair::HL
    } else {
        RegisterPair::SP
    }
}

/// The pair that a two-bit field names in a push or a pop: AF stands in
/// the place of SP.
pub open spec fn stack_pair_operand(index: int) -> RegisterPair {
    if index == 3 {
        RegisterPair::AF
    } else {
        pair_operand(index)
    }
}

/// The condition that a two-bit field names, in the order NZ, Z, NC, C.
pub open spec fn condition_operand(index: int) -> Condition {
    if index == 0 {
        Condition::NonZero
    } else if index == 1 {
        Condition::Zero
    } else if index == 2 {
        Condition::NonCarry
    } else {
        Condition::Carry
    }
}

/// The operand through which the accumulator is loaded or stored by the
/// opcodes 0x02 to 0x3A: (BC), (DE), (HL+), (HL-).
pub open spec fn accumulator_partner(index: int) -> Operand {
    if index == 0 {
        Operand::RegisterIndirect(RegisterPair::BC)
    } else if index == 1 {
        Operand::RegisterIndirect(RegisterPair::DE)
    } else if index == 2 {
        Operand::Register(Register::IncrementHL)
    } else {
        Operand::Register(Register::DecrementHL)
    }
}

/// The arithmetic or logic instruction that a three-bit field names, on
/// the given operand: ADD, ADC, SUB, SBC, AND, XOR, OR, CP.
pub open spec fn arithmetic_instruction(index: int, operand: Operand) -> Instruction {
    if index == 0 {
        Instruction::Add(Operand::Register(Register::A), operand)
    } else if index == 1 {
        Instruction::Adc(operand)
    } else if index == 2 {
        Instruction::Sub(operand)
    } else if index == 3 {
        Instruction::Sbc(operand)
    } else if index == 4 {
        Instruction::And(operand)
    } else if index == 5 {
        Instruction::Xor(operand)
    } else if index == 6 {
        Instruction::Or(operand)
    } else {
        Instruction::Cp(operand)
    }
}

/// The opcodes that the processor does not define.
pub open spec fn is_illegal(opcode: u8) -> bool {
    opcode == 0xD3 || opcode == 0xDB || opcode == 0xDD || opcode == 0xE3 || opcode == 0xE4
        || opcode == 0xEB || opcode == 0xEC || opcode == 0xED || opcode == 0xF4 || opcode == 0xFC
        || opcode == 0xFD
}

/// How many bytes follow an opcode of the first table: an operand byte,
/// an operand word, or the opcode of the second table after the prefix.
pub open spec fn immediate_size(opcode: u8) -> nat {
    let (x, y, z) = (field_x(opcode), field_y(opcode), field_z(opcode));
    let q = field_q(opcode);
    if x == 0 {
        if z == 0 {
            if y == 1 {
                2
            } else if y >= 3 {
                1
            } else {
                0
            }
        } else if z == 1 {
            if q == 0 {
                2
            } else {
                0
            }
        } else if z == 6 {
            1
        } else {
            0
        }
    } else if x == 3 {
        if z == 0 {
            if y >= 4 {
                1
            } else {
                0
            }
        } else if z == 2 {
            if y == 4 || y == 6 {
                0
            } else {
                2
            }
        } else if z == 3 {
            if y == 0 {
                2
            } else if y == 1 {
                1
            } else {
                0
            }
        } else if z == 4 {
            if y < 4 {
                2
            } else {
                0
            }
        } else if z == 5 {
            if y == 1 {
                2
            } else {
                0
            }
        } else if z == 6 {
            1
        } else {
            0
        }
    } else {
        0
    }
}

/// The instruction that an opcode of the second table stands for.
pub open spec fn prefixed_spec(opcode: u8) -> Instruction {
    let (x, y) = (field_x(opcode), field_y(opcode));
    let operand = register_operand(field_z(opcode));
    if x == 0 {
        if y == 0 {
            Instruction::Rlc(operand)
        } else if y == 1 {
            Instruction::Rrc(operand)
        } else if y == 2 {
            Instruction::Rl(operand)
        } else if y == 3 {
            Instruction::Rr(operand)
        } else if y == 4 {
            Instruction::Sla(operand)
        } else if y == 5 {
            Instruction::Sra(operand)
        } else if y == 6 {
            Instruction::Swap(operand)
        } else {
            Instruction::Srl(operand)
        }
    } else if x == 1 {
        Instruction::Bit(y as u8, operand)
    } else if x == 2 {
        Instruction::Res(y as u8, operand)
    } else {
        Instruction::SetBit(y as u8, operand)
    }
}

/// The instruction that an opcode of the first table stands for, given
/// the byte or the word that follows it. An opcode that the processor
/// does not define stands for no operation.
pub open spec fn instruction_spec(opcode: u8, byte: u8, wide: u16) -> Instruction {
    let (x, y, z) = (field_x(opcode), field_y(opcode), field_z(opcode));
    let (p, q) = (field_p(opcode), field_q(opcode));
    let a = Operand::Register(Register::A);
    if x == 0 {
        if z == 0 {
            if y == 0 {
                Instruction::Nop
            } else if y == 1 {
                Instruction::Ld(
                    Operand::IndirectImmediate16(wide),
                    Operand::RegisterPair(RegisterPair::SP),
                )
            } else if y == 2 {
                Instruction::Stop
            } else if y == 3 {
                Instruction::Jr(Condition::Always, signed(byte) as i8)
            } else {
                Instruction::Jr(condition_operand(y - 4), signed(byte) as i8)
            }
        } else if z == 1 {
            if q == 0 {
                Instruction::Ld(Operand::RegisterPair(pair_operand(p)), Operand::Immediate16(wide))
            } else {
                Instruction::Add(
                    Operand::RegisterPair(RegisterPair::HL),
                    Operand::RegisterPair(pair_operand(p)),
                )
            }
        } else if z == 2 {
            if q == 0 {
                Instruction::Ld(accumulator_partner(p), a)
            } else {
                Instruction::Ld(a, accumulator_partner(p))
            }
        } else if z == 3 {
            if q == 0 {
                Instruction::Inc(Operand::RegisterPair(pair_operand(p)))
            } else {
                Instruction::Dec(Operand::RegisterPair(pair_operand(p)))
            }
        } else if z == 4 {
            Instruction::Inc(Operand::Register(register_operand(y)))
        } else if z == 5 {
            Instruction::Dec(Operand::Register(register_operand(y)))
        } else if z == 6 {
            Instruction::Ld(Operand::Register(register_operand(y)), Operand::Immediate8(byte))
        } else if y == 0 {
            Instruction::Rlca
        } else if y == 1 {
            Instruction::Rrca
        } else if y == 2 {
            Instruction::Rla
        } else if y == 3 {
            Instruction::Rra
        } else if y == 4 {
            Instruction::Daa
        } else if y == 5 {
            Instruction::Cpl
        } else if y == 6 {
            Instruction::Scf
        } else {
            Instruction::Ccf
        }
    } else if x == 1 {
        if y == 6 && z == 6 {
            Instruction::Halt
        } else {
            Instruction::Ld(
                Operand::Register(register_operand(y)),
                Operand::Register(register_operand(z)),
            )
        }
    } else if x == 2 {
        arithmetic_instruction(y, Operand::Register(register_operand(z)))
    } else if z == 0 {
        if y < 4 {
            Instruction::Ret(condition_operand(y))
        } else if y == 4 {
            Instruction::Ld(Operand::IndirectImmediate8(byte), a)
        } else if y == 5 {
            Instruction::Add(Operand::RegisterPair(RegisterPair::SP), Operand::Immediate8(byte))
        } else if y == 6 {
            Instruction::Ld(a, Operand::IndirectImmediate8(byte))
        } else {
            Instruction::Ld(
                Operand::RegisterPair(RegisterPair::HL),
                Operand::StackOffset(signed(byte) as i8),
            )
        }
    } else if z == 1 {
        if q == 0 {
            Instruction::Pop(stack_pair_operand(p))
        } else if p == 0 {
            Instruction::Ret(Condition::Always)
        } else if p == 1 {
            Instruction::Reti
        } else if p == 2 {
            Instruction::Jp(Condition::Always, Operand::RegisterPair(RegisterPair::HL))
        } else {
            Instruction::Ld(
                Operand::RegisterPair(RegisterPair::SP),
                Operand::RegisterPair(RegisterPair::HL),
            )
        }
    } else if z == 2 {
        if y < 4 {
            Instruction::Jp(condition_operand(y), Operand::Immediate16(wide))
        } else if y == 4 {
            Instruction::Ld(Operand::Register(Register::IndirectC), a)
        } else if y == 5 {
            Instruction::Ld(Operand::IndirectImmediate16(wide), a)
        } else if y == 6 {
            Instruction::Ld(a, Operand::Register(Register::IndirectC))
        } else {
            Instruction::Ld(a, Operand::IndirectImmediate16(wide))
        }
    } else if z == 3 {
        if y == 0 {
            Instruction::Jp(Condition::Always, Operand::Immediate16(wide))
        } else if y == 1 {
            prefixed_spec(byte)
        } else if y == 6 {
            Instruction::Di
        } else if y == 7 {
            Instruction::Ei
        } else {
            Instruction::Nop
        }
    } else if z == 4 {
        if y < 4 {
            Instruction::Call(condition_operand(y), wide)
        } else {
            Instruction::Nop
        }
    } else if z == 5 {
        if q == 0 {
            Instruction::Push(stack_pair_operand(p))
        } else if p == 0 {
            Instruction::Call(Condition::Always, wide)
        } else {
            Instruction::Nop
        }
    } else if z == 6 {
        arithmetic_instruction(y, Operand::Immediate8(byte))
    } else {
        Instruction::Rst((y * 8) as u8)
    }
}

/// An opcode stands for no operation without being the no-operation
/// opcode exactly when the processor does not define it.
pub proof fn lemma_illegal_is_nop(opcode: u8, byte: u8, wide: u16)
    ensures
        is_illegal(opcode) ==> instruction_spec(opcode, byte, wide) == Instruction::Nop
            && immediate_size(opcode) == 0,
        instruction_spec(opcode, byte, wide) == Instruction::Nop && opcode != 0 && opcode
            != PREFIX ==> is_illegal(opcode),
{
}

/// Every instruction that an opcode stands for has operands of the kinds
/// it takes.
pub proof fn lemma_decoded_is_valid(opcode: u8, byte: u8, wide: u16)
    ensures
        prefixed_spec(opcode).valid(),
        instruction_spec(opcode, byte, wide).valid(),
{
    assert(prefixed_spec(opcode).valid());
    assert(prefixed_spec(byte).valid());
}

proof fn lemma_opcode_fields(opcode: u8)
    by (bit_vector)
    ensures
        opcode >> 3u8 == opcode / 8,
        opcode & 0o70 == ((opcode / 8) % 8) * 8,
        opcode & 0o07 == opcode % 8,
        opcode & 0o03 == opcode % 4,
{
}

proof fn lemma_middle_field(opcode: u8)
    by (bit_vector)
    ensures
        (opcode & 0o70) >> 3u8 == (opcode / 8) % 8,
        (opcode & 0o30) >> 3u8 == (opcode / 8) % 4,
{
}

/// The condition that the low two bits of `opcode` name.
pub fn inherent_condition_operand(opcode: u8) -> (condition: Condition)
    ensures
        condition == condition_operand(opcode as int % 4),
{
    proof {
        lemma_opcode_fields(opcode);
    }
    match opcode & 0o03 {
        0 => Condition::NonZero,
        1 => Condition::Zero,
        2 => Condition::NonCarry,
        _ => Condition::Carry,
    }
}

/// The 8-bit operand that the low three bits of `opcode` name.
pub fn inherent_register_operand(opcode: u8) -> (register: Register)
    ensures
        register == register_operand(opcode as int % 8),
        register.is_basic(),
{
    proof {
        lemma_opcode_fields(opcode);
    }
    match opcode & 0o07 {
        0 => Register::B,
        1 => Register::C,
        2 => Register::D,
        3 => Register::E,
        4 => Register::H,
        5 => Register::L,
        6 => Register::IndirectHL,
        _ => Register::A,
    }
}

/// The pair that bits 1 and 2 of `opcode` name.
pub fn inherent_registerpair_operand(opcode: u8) -> (pair: RegisterPair)
    ensures
        pair == pair_operand((opcode as int % 8) / 2),
{
    proof {
        lemma_opcode_fields(opcode);
    }
    match opcode & 0o07 {
        0 | 1 => RegisterPair::BC,
        2 | 3 => RegisterPair::DE,
        4 | 5 => RegisterPair::HL,
        _ => RegisterPair::SP,
    }
}

/// How many bytes follow `opcode` in the instruction stream.
pub fn immediate_length(opcode: u8) -> (size: u8)
    ensures
        size == immediate_size(opcode),
{
    match opcode {
        0o10 | 0o01 | 0o21 | 0o41 | 0o61 => 2,
        0o302 | 0o312 | 0o322 | 0o332 | 0o303 | 0o352 | 0o372 => 2,
        0o304 | 0o314 | 0o324 | 0o334 | 0o315 => 2,
        0o30 | 0o40 | 0o50 | 0o60 | 0o70 => 1,
        0o06 | 0o16 | 0o26 | 0o36 | 0o46 | 0o56 | 0o66 | 0o76 => 1,
        0o306 | 0o316 | 0o326 | 0o336 | 0o346 | 0o356 | 0o366 | 0o376 => 1,
        0o340 | 0o350 | 0o360 | 0o370 | 0o313 => 1,
        _ => 0,
    }
}

/// The instruction behind an opcode of the second table.
pub fn prefixed(opcode: u8) -> (instruction: Instruction)
    ensures
        instruction == prefixed_spec(opcode),
        instruction.valid(),
{
    proof {
        lemma_opcode_fields(opcode);
        lemma_middle_field(opcode);
    }
    let operand = inherent_register_operand(opcode);
    let index = (opcode & 0o70) >> 3;
    match opcode {
        0o00..=0o07 => Instruction::Rlc(operand),
        0o10..=0o17 => Instruction::Rrc(operand),
        0o20..=0o27 => Instruction::Rl(operand),
        0o30..=0o37 => Instruction::Rr(operand),
        0o40..=0o47 => Instruction::Sla(operand),
        0o50..=0o57 => Instruction::Sra(operand),
        0o60..=0o67 => Instruction::Swap(operand),
        0o70..=0o77 => Instruction::Srl(operand),
        0o100..=0o177 => Instruction::Bit(index, operand),
        0o200..=0o277 => Instruction::Res(index, operand),
        0o300..=0o377 => Instruction::SetBit(index, operand),
    }
}

fn first_quarter(opcode: u8, byte: u8, wide: u16) -> (instruction: Instruction)
    requires
        opcode < 0o100,
    ensures
        instruction == instruction_spec(opcode, byte, wide),
        instruction.valid(),
{
    proof {
        lemma_opcode_fields(opcode);
        lemma_middle_field(opcode);
    }
    let a = Operand::Register(Register::A);
    match opcode {
        0o00 => Instruction::Nop,
        0o01 | 0o21 | 0o41 | 0o61 => Instruction::Ld(
            Operand::RegisterPair(inherent_registerpair_operand(opcode >> 3)),
            Operand::Immediate16(wide),
        ),
        0o07 => Instruction::Rlca,
        0o17 => Instruction::Rrca,
        0o27 => Instruction::Rla,
        0o37 => Instruction::Rra,
        0o47 => Instruction::Daa,
        0o57 => Instruction::Cpl,
        0o67 => Instruction::Scf,
        0o77 => Instruction::Ccf,
        0o11 | 0o31 | 0o51 | 0o71 => Instruction::Add(
            Operand::RegisterPair(RegisterPair::HL),
            Operand::RegisterPair(inherent_registerpair_operand(opcode >> 3)),
        ),
        0o10 => Instruction::Ld(
            Operand::IndirectImmediate16(wide),
            Operand::RegisterPair(RegisterPair::SP),
        ),
        0o02 | 0o22 => Instruction::Ld(
            Operand::RegisterIndirect(inherent_registerpair_operand(opcode >> 3)),
            a,
        ),
        0o12 | 0o32 => Instruction::Ld(
            a,
            Operand::RegisterIndirect(inherent_registerpair_operand(opcode >> 3)),
        ),
        0o42 => Instruction::Ld(Operand::Register(Register::IncrementHL), a),
        0o52 => Instruction::Ld(a, Operand::Register(Register::IncrementHL)),
        0o62 => Instruction::Ld(Operand::Register(Register::DecrementHL), a),
        0o72 => Instruction::Ld(a, Operand::Register(Register::DecrementHL)),
        0o20 => Instruction::Stop,
        0o30 => Instruction::Jr(Condition::Always, to_signed(byte)),
        0o40 | 0o50 | 0o60 | 0o70 => Instruction::Jr(
            inherent_condition_operand((opcode & 0o30) >> 3),
            to_signed(byte),
        ),
        0o03 | 0o23 | 0o43 | 0o63 => Instruction::Inc(
            Operand::RegisterPair(inherent_registerpair_operand(opcode >> 3)),
        ),
        0o13 | 0o33 | 0o53 | 0o73 => Instruction::Dec(
            Operand::RegisterPair(inherent_registerpair_operand(opcode >> 3)),
        ),
        0o04 | 0o14 | 0o24 | 0o34 | 0o44 | 0o54 | 0o64 | 0o74 => Instruction::Inc(
            Operand::Register(inherent_register_operand((opcode & 0o70) >> 3)),
        ),
        0o05 | 0o15 | 0o25 | 0o35 | 0o45 | 0o55 | 0o65 | 0o75 => Instruction::Dec(
            Operand::Register(inherent_register_operand((opcode & 0o70) >> 3)),
        ),
        _ => Instruction::Ld(
            Operand::Register(inherent_register_operand((opcode & 0o70) >> 3)),
            Operand::Immediate8(byte),
        ),
    }
}

fn middle_quarters(opcode: u8) -> (instruction: Instruction)
    requires
        0o100 <= opcode < 0o300,
    ensures
        instruction == instruction_spec(opcode, 0, 0),
        instruction.valid(),
{
    proof {
        lemma_opcode_fields(opcode);
    }
    let operand = Operand::Register(inherent_register_operand(opcode));
    match opcode {
        0o166 => Instruction::Halt,
        0o100..=0o177 => Instruction::Ld(
            Operand::Register(inherent_register_operand(opcode >> 3)),
            operand,
        ),
        0o200..=0o207 => Instruction::Add(Operand::Register(Register::A), operand),
        0o210..=0o217 => Instruction::Adc(operand),
        0o220..=0o227 => Instruction::Sub(operand),
        0o230..=0o237 => Instruction::Sbc(operand),
        0o240..=0o247 => Instruction::And(operand),
        0o250..=0o257 => Instruction::Xor(operand),
        0o260..=0o267 => Instruction::Or(operand),
        _ => Instruction::Cp(operand),
    }
}

fn last_quarter(opcode: u8, byte: u8, wide: u16) -> (instruction: Instruction)
    requires
        0o300 <= opcode,
    ensures
        instruction == instruction_spec(opcode, byte, wide),
        instruction.valid(),
{
    proof {
        lemma_opcode_fields(opcode);
        lemma_middle_field(opcode);
    }
    let a = Operand::Register(Register::A);
    match opcode {
        0o300 | 0o310 | 0o320 | 0o330 => Instruction::Ret(inherent_condition_operand(opcode >> 3)),
        0o301 | 0o321 | 0o341 => Instruction::Pop(
            inherent_registerpair_operand((opcode & 0o70) >> 3),
        ),
        0o305 | 0o325 | 0o345 => Instruction::Push(
            inherent_registerpair_operand((opcode & 0o70) >> 3),
        ),
        0o361 => Instruction::Pop(RegisterPair::AF),
        0o365 => Instruction::Push(RegisterPair::AF),
        0o311 => Instruction::Ret(Condition::Always),
        0o303 => Instruction::Jp(Condition::Always, Operand::Immediate16(wide)),
        0o351 => Instruction::Jp(Condition::Always, Operand::RegisterPair(RegisterPair::HL)),
        0o302 | 0o312 | 0o322 | 0o332 => Instruction::Jp(
            inherent_condition_operand(opcode >> 3),
            Operand::Immediate16(wide),
        ),
        0o304 | 0o314 | 0o324 | 0o334 => Instruction::Call(
            inherent_condition_operand(opcode >> 3),
            wide,
        ),
        0o315 => Instruction::Call(Condition::Always, wide),
        0o313 => prefixed(byte),
        0o306 => Instruction::Add(a, Operand::Immediate8(byte)),
        0o316 => Instruction::Adc(Operand::Immediate8(byte)),
        0o326 => Instruction::Sub(Operand::Immediate8(byte)),
        0o331 => Instruction::Reti,
        0o336 => Instruction::Sbc(Operand::Immediate8(byte)),
        0o340 => Instruction::Ld(Operand::IndirectImmediate8(byte), a),
        0o342 => Instruction::Ld(Operand::Register(Register::IndirectC), a),
        0o346 => Instruction::And(Operand::Immediate8(byte)),
        0o350 => Instruction::Add(Operand::RegisterPair(RegisterPair::SP), Operand::Immediate8(byte)),
        0o352 => Instruction::Ld(Operand::IndirectImmediate16(wide), a),
        0o356 => Instruction::Xor(Operand::Immediate8(byte)),
        0o360 => Instruction::Ld(a, Operand::IndirectImmediate8(byte)),
        0o362 => Instruction::Ld(a, Operand::Register(Register::IndirectC)),
        0o363 => Instruction::Di,
        0o366 => Instruction::Or(Operand::Immediate8(byte)),
        0o370 => Instruction::Ld(
            Operand::RegisterPair(RegisterPair::HL),
            Operand::StackOffset(to_signed(byte)),
        ),
        0o371 => Instruction::Ld(
            Operand::RegisterPair(RegisterPair::SP),
            Operand::RegisterPair(RegisterPair::HL),
        ),
        0o372 => Instruction::Ld(a, Operand::IndirectImmediate16(wide)),
        0o373 => Instruction::Ei,
        0o376 => Instruction::Cp(Operand::Immediate8(byte)),
        0o307 | 0o317 | 0o327 | 0o337 | 0o347 | 0o357 | 0o367 | 0o377 => Instruction::Rst(
            opcode & 0o70,
        ),
        _ => Instruction::Nop,
    }
}

/// The instruction behind an opcode of the first table, given the byte
/// or the word that follows it in the instruction stream.
pub fn instruction_of(opcode: u8, byte: u8, wide: u16) -> (instruction: Instruction)
    ensures
        instruction == instruction_spec(opcode, byte, wide),
        instruction.valid(),
{
    if opcode < 0o100 {
        first_quarter(opcode, byte, wide)
    } else if opcode < 0o300 {
        middle_quarters(opcode)
    } else {
        last_quarter(opcode, byte, wide)
    }
}

impl<B: Bus> Cpu<B> {
    /// The instruction that `opcode` stands for, and the state after the
    /// bytes that belong to it are fetched from behind the opcode.
    pub open spec fn decode_spec(state: CpuState<B::V>, opcode: u8) -> (
        Instruction,
        CpuState<B::V>,
    ) {
        if immediate_size(opcode) == 0 {
            (instruction_spec(opcode, 0, 0), state)
        } else if immediate_size(opcode) == 1 {
            let (byte, next) = Self::fetch8_spec(state);
            (instruction_spec(opcode, byte, 0), next)
        } else {
            let (wide, next) = Self::fetch16_spec(state);
            (instruction_spec(opcode, 0, wide), next)
        }
    }

    /// Decodes `opcode`, fetching the operand bytes that follow it.
    ///
    /// An opcode that the processor does not define is decoded as no
    /// operation.
    pub fn decode(&mut self, opcode: u8) -> (instruction: Instruction)
        ensures
            instruction == Self::decode_spec(old(self)@, opcode).0,
            final(self)@ == Self::decode_spec(old(self)@, opcode).1,
            instruction.valid(),
    {
        match immediate_length(opcode) {
            0 => instruction_of(opcode, 0, 0),
            1 => {
                let byte = self.fetch_imm8();
                instruction_of(opcode, byte, 0)
            },
            _ => {
                let wide = self.fetch_imm16();
                instruction_of(opcode, 0, wide)
            },
        }
    }
}

} // verus!
