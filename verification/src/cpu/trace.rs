use crate::bus::{next_address, Bus};
use crate::cpu::{high_byte, low_byte, Cpu, CpuState};
use vstd::prelude::*;

verus! {

/// The character for a value below sixteen: `0` to `9`, then `A` to `F`.
pub open spec fn hex_digit_spec(value: int) -> char {
    "0123456789ABCDEF"@[value]
}

/// A byte as two upper-case hexadecimal characters.
pub open spec fn hex_byte_spec(value: u8) -> Seq<char> {
    seq![hex_digit_spec(value as int / 16), hex_digit_spec(value as int % 16)]
}

/// A word as four upper-case hexadecimal characters.
pub open spec fn hex_word_spec(value: u16) -> Seq<char> {
    hex_byte_spec(high_byte(value)) + hex_byte_spec(low_byte(value))
}

/// The four bytes that lie at the program counter.
pub open spec fn at_pc<B: Bus>(state: CpuState<B::V>) -> Seq<u8> {
    let first = state.registers.pc;
    let second = next_address(first);
    let third = next_address(second);
    let fourth = next_address(third);
    seq![
        B::peek_spec(state.bus, first),
        B::peek_spec(state.bus, second),
        B::peek_spec(state.bus, third),
        B::peek_spec(state.bus, fourth),
    ]
}

/// A register in a trace line: a space, the register's name, a colon and
/// its value.
pub open spec fn register_field(name: char, value: u8) -> Seq<char> {
    seq![' ', name, ':'] + hex_byte_spec(value)
}

/// The stack pointer in a trace line.
pub open spec fn stack_field(value: u16) -> Seq<char> {
    seq![' ', 'S', 'P', ':'] + hex_word_spec(value)
}

/// The program counter in a trace line.
pub open spec fn counter_field(value: u16) -> Seq<char> {
    seq![' ', 'P', 'C', ':'] + hex_word_spec(value)
}

/// The first of the bytes at the program counter in a trace line.
pub open spec fn memory_field(value: u8) -> Seq<char> {
    seq![' ', 'P', 'C', 'M', 'E', 'M', ':'] + hex_byte_spec(value)
}

/// One more of the bytes at the program counter in a trace line.
pub open spec fn more_memory_field(value: u8) -> Seq<char> {
    seq![','] + hex_byte_spec(value)
}

/// One line of an instruction trace:
/// `A:XX F:XX B:XX C:XX D:XX E:XX H:XX L:XX SP:XXXX PC:XXXX PCMEM:XX,XX,XX,XX`
/// in upper-case hexadecimal of the widths shown, where `memory` holds the
/// four bytes at the program counter.
pub open spec fn trace_spec<M>(state: CpuState<M>, memory: Seq<u8>) -> Seq<char> {
    seq!['A', ':'] + hex_byte_spec(state.registers.a) + register_field(
        'F',
        state.flags.byte_spec(),
    ) + register_field('B', state.registers.b) + register_field('C', state.registers.c)
        + register_field('D', state.registers.d) + register_field('E', state.registers.e)
        + register_field('H', state.registers.h) + register_field('L', state.registers.l)
        + stack_field(state.registers.sp) + counter_field(state.registers.pc) + memory_field(
        memory[0],
    ) + more_memory_field(memory[1]) + more_memory_field(memory[2]) + more_memory_field(memory[3])
}

proof fn lemma_nibbles(value: u8)
    by (bit_vector)
    ensures
        value >> 4u8 == value / 16,
        value & 0x0F == value % 16,
        value >> 4u8 < 16,
        value & 0x0F < 16,
{
}

fn hex_digit(value: u8) -> (digit: char)
    requires
        value < 16,
    ensures
        digit == hex_digit_spec(value as int),
{
    proof {
        reveal_strlit("0123456789ABCDEF");
    }
    match value {
        0 => '0',
        1 => '1',
        2 => '2',
        3 => '3',
        4 => '4',
        5 => '5',
        6 => '6',
        7 => '7',
        8 => '8',
        9 => '9',
        10 => 'A',
        11 => 'B',
        12 => 'C',
        13 => 'D',
        14 => 'E',
        _ => 'F',
    }
}

fn append_byte(line: &mut Vec<char>, value: u8)
    ensures
        final(line)@ == old(line)@ + hex_byte_spec(value),
{
    proof {
        lemma_nibbles(value);
    }
    line.push(hex_digit(value >> 4));
    line.push(hex_digit(value & 0x0F));
    assert(line@ =~= old(line)@ + hex_byte_spec(value));
}

fn append_word(line: &mut Vec<char>, value: u16)
    ensures
        final(line)@ == old(line)@ + hex_word_spec(value),
{
    proof {
        crate::bus::lemma_bytes_of_word(value);
    }
    append_byte(line, (value >> 8) as u8);
    append_byte(line, (value & 0xFF) as u8);
    assert(line@ =~= old(line)@ + hex_word_spec(value));
}

fn append_accumulator(line: &mut Vec<char>, value: u8)
    ensures
        final(line)@ == old(line)@ + (seq!['A', ':'] + hex_byte_spec(value)),
{
    line.push('A');
    line.push(':');
    append_byte(line, value);
    assert(line@ =~= old(line)@ + (seq!['A', ':'] + hex_byte_spec(value)));
}

fn append_register(line: &mut Vec<char>, name: char, value: u8)
    ensures
        final(line)@ == old(line)@ + register_field(name, value),
{
    line.push(' ');
    line.push(name);
    line.push(':');
    append_byte(line, value);
    assert(line@ =~= old(line)@ + register_field(name, value));
}

fn append_stack(line: &mut Vec<char>, value: u16)
    ensures
        final(line)@ == old(line)@ + stack_field(value),
{
    line.push(' ');
    line.push('S');
    line.push('P');
    line.push(':');
    append_word(line, value);
    assert(line@ =~= old(line)@ + stack_field(value));
}

fn append_counter(line: &mut Vec<char>, value: u16)
    ensures
        final(line)@ == old(line)@ + counter_field(value),
{
    line.push(' ');
    line.push('P');
    line.push('C');
    line.push(':');
    append_word(line, value);
    assert(line@ =~= old(line)@ + counter_field(value));
}

fn append_memory(line: &mut Vec<char>, value: u8)
    ensures
        final(line)@ == old(line)@ + memory_field(value),
{
    line.push(' ');
    line.push('P');
    line.push('C');
    line.push('M');
    line.push('E');
    line.push('M');
    line.push(':');
    append_byte(line, value);
    assert(line@ =~= old(line)@ + memory_field(value));
}

fn append_more_memory(line: &mut Vec<char>, value: u8)
    ensures
        final(line)@ == old(line)@ + more_memory_field(value),
{
    line.push(',');
    append_byte(line, value);
    assert(line@ =~= old(line)@ + more_memory_field(value));
}

impl<B: Bus> Cpu<B> {
    /// Writes the processor's state as one line of an instruction trace.
    /// The bytes at the program counter are peeked at: no time passes.
    pub fn trace_line(&self) -> (line: Vec<char>)
        ensures
            line@ == trace_spec(self@, at_pc::<B>(self@)),
    {
        let pc = self.registers.pc;
        let mut line: Vec<char> = Vec::new();
        append_accumulator(&mut line, self.registers.a);
        assert(line@ =~= seq!['A', ':'] + hex_byte_spec(self.registers.a));
        append_register(&mut line, 'F', self.flags.to_byte());
        append_register(&mut line, 'B', self.registers.b);
        append_register(&mut line, 'C', self.registers.c);
        append_register(&mut line, 'D', self.registers.d);
        append_register(&mut line, 'E', self.registers.e);
        append_register(&mut line, 'H', self.registers.h);
        append_register(&mut line, 'L', self.registers.l);
        append_stack(&mut line, self.registers.sp);
        append_counter(&mut line, pc);
        append_memory(&mut line, self.bus.peek_byte(pc));
        append_more_memory(&mut line, self.bus.peek_byte(pc.wrapping_add(1)));
        append_more_memory(&mut line, self.bus.peek_byte(pc.wrapping_add(2)));
        append_more_memory(&mut line, self.bus.peek_byte(pc.wrapping_add(3)));
        line
    }
}

} // verus!
