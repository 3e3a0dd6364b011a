use crate::bus::{
    is_ram_address, next_address, read_word_spec, write_word_spec, Bus, BusState, DmgBus,
};
use crate::cartridge::{Cartridge, JsMoo};
use crate::cpu::alu::{displaced, shifted_value, Shift};
use crate::cpu::{Cpu, CpuState, Instruction, Operand, Register, RegisterPair};
use vstd::prelude::*;

verus! {

/// Exchanging the nibbles of a byte twice gives the byte back, and an
/// exchange leaves the carry clear.
pub proof fn lemma_swap_twice(value: u8, carry: bool)
    ensures
        shifted_value(Shift::Swap, shifted_value(Shift::Swap, value, carry), false) == value,
{
}

/// A push followed by a pop leaves the stack pointer where it was, on any
/// bus. The word popped is the word that the bus reads back from where
/// the push stored it: it is the word pushed exactly where the memory
/// under the stack holds what is written to it.
pub proof fn lemma_push_then_pop<B: Bus>(state: CpuState<B::V>, value: u16)
    ensures
        Cpu::<B>::pop_spec(Cpu::<B>::push_spec(state, value)).1.registers == state.registers,
        Cpu::<B>::pop_spec(Cpu::<B>::push_spec(state, value)).0 == read_word_spec::<B>(
            write_word_spec::<B>(state.bus, displaced(state.registers.sp, -2), value),
            displaced(state.registers.sp, -2),
        ).0,
{
}

/// A word pushed on a stack that lies in the console's own RAM is the
/// word popped next.
pub proof fn lemma_push_then_pop_in_ram<C: Cartridge>(state: CpuState<BusState<C::V>>, value: u16)
    requires
        state.bus.wf(),
        is_ram_address(displaced(state.registers.sp, -2)),
        is_ram_address(next_address(displaced(state.registers.sp, -2))),
    ensures
        Cpu::<DmgBus<C>>::pop_spec(Cpu::<DmgBus<C>>::push_spec(state, value)).0 == value,
        Cpu::<DmgBus<C>>::pop_spec(Cpu::<DmgBus<C>>::push_spec(state, value)).1.registers
            == state.registers,
{
}

/// On flat memory a word pushed is the word popped next, wherever the
/// stack lies.
pub proof fn lemma_push_then_pop_flat(state: CpuState<Seq<u8>>, value: u16)
    requires
        state.bus.len() == 0x1_0000,
    ensures
        Cpu::<JsMoo>::pop_spec(Cpu::<JsMoo>::push_spec(state, value)).0 == value,
        Cpu::<JsMoo>::pop_spec(Cpu::<JsMoo>::push_spec(state, value)).1.registers
            == state.registers,
{
}

/// A push of one pair followed by a pop into BC, DE or HL copies the pair
/// and leaves the stack pointer where it was, where the stack lies in the
/// console's own RAM. A pop into AF copies all but the low nibble.
pub proof fn lemma_push_pop_instructions<C: Cartridge>(
    state: CpuState<BusState<C::V>>,
    from: RegisterPair,
    to: RegisterPair,
)
    requires
        state.bus.wf(),
        is_ram_address(displaced(state.registers.sp, -2)),
        is_ram_address(next_address(displaced(state.registers.sp, -2))),
        to != RegisterPair::SP,
    ensures
        ({
            let pushed = Cpu::<DmgBus<C>>::execute_spec(state, Instruction::Push(from));
            let popped = Cpu::<DmgBus<C>>::execute_spec(pushed, Instruction::Pop(to));
            &&& popped.registers.sp == state.registers.sp
            &&& to != RegisterPair::AF ==> popped.pair(to) == state.pair(from)
            &&& to == RegisterPair::AF ==> popped.pair(to) == state.pair(from) - state.pair(from)
                % 16
        }),
{
    let value = state.pair(from);
    lemma_push_then_pop_in_ram::<C>(state, value);
    let pushed = Cpu::<DmgBus<C>>::push_spec(state, value);
    let popped = Cpu::<DmgBus<C>>::pop_spec(pushed).1;
    crate::cpu::lemma_pair_round_trip(popped, to, value);
}

/// A byte loaded into one register and from there into another is found
/// in the other.
pub proof fn lemma_load_then_copy<B: Bus>(
    state: CpuState<B::V>,
    first: Register,
    second: Register,
    value: u8,
)
    requires
        first.is_direct(),
        second.is_direct(),
    ensures
        ({
            let loaded = Cpu::<B>::execute_spec(
                state,
                Instruction::Ld(Operand::Register(first), Operand::Immediate8(value)),
            );
            let copied = Cpu::<B>::execute_spec(
                loaded,
                Instruction::Ld(Operand::Register(second), Operand::Register(first)),
            );
            &&& loaded.registers.get_spec(first) == value
            &&& copied.registers.get_spec(second) == value
            &&& copied.bus == state.bus
        }),
{
}

/// Two exchanges of the nibbles of a register leave every register as it
/// was, and the carry clear.
pub proof fn lemma_swap_twice_is_identity<B: Bus>(state: CpuState<B::V>, register: Register)
    requires
        register.is_direct(),
    ensures
        ({
            let once = Cpu::<B>::execute_spec(state, Instruction::Swap(register));
            let twice = Cpu::<B>::execute_spec(once, Instruction::Swap(register));
            &&& twice.registers == state.registers
            &&& !twice.flags.c
            &&& !once.flags.c
            &&& twice.bus == state.bus
        }),
{
    lemma_swap_twice(state.registers.get_spec(register), state.flags.c);
}

/// The instruction that enables interrupts does not enable them yet. At
/// the boundary after it nothing is served, whatever is pending: the
/// enable takes effect there and the next instruction runs. Only at the
/// boundary after that instruction can a request be served.
pub proof fn lemma_enable_is_delayed<B: Bus>(state: CpuState<B::V>)
    requires
        !state.ime,
        !state.halted,
    ensures
        ({
            let enabled = Cpu::<B>::execute_spec(state, Instruction::Ei);
            &&& !enabled.ime
            &&& enabled.ime_delayed
            &&& Cpu::<B>::step_spec(enabled) == Cpu::<B>::run_spec(
                CpuState { ime: true, ime_delayed: false, ..state },
            )
        }),
{
}

/// With the master enable set and a request pending, the boundary serves
/// the request instead of running an instruction: the master enable is
/// cleared and execution goes on at the vector of the source that is
/// first in priority.
pub proof fn lemma_pending_is_served<B: Bus>(state: CpuState<B::V>)
    requires
        state.ime,
        Cpu::<B>::pending_spec(state) & crate::interrupts::SOURCES != 0,
    ensures
        ({
            let source = crate::interrupts::first_pending_spec(Cpu::<B>::pending_spec(state));
            let served = Cpu::<B>::step_spec(state);
            &&& source is Some
            &&& !served.ime
            &&& !served.halted
            &&& served.registers.pc == source->0.vector_spec()
            &&& served.registers.sp == displaced(state.registers.sp, -2)
        }),
{
    crate::interrupts::lemma_first_pending(Cpu::<B>::pending_spec(state));
}

/// A halted processor stays halted, and only time passes, as long as
/// nothing is pending; whatever is pending ends the halt.
pub proof fn lemma_halt<B: Bus>(state: CpuState<B::V>)
    requires
        state.halted,
    ensures
        Cpu::<B>::pending_spec(state) & crate::interrupts::SOURCES == 0 ==> Cpu::<B>::step_spec(
            state,
        ) == state.with_bus(B::tick_spec(state.bus)),
        Cpu::<B>::pending_spec(state) & crate::interrupts::SOURCES != 0 && !state.ime
            ==> Cpu::<B>::step_spec(state) == Cpu::<B>::run_spec(
            Cpu::<B>::promoted_spec(CpuState { halted: false, ..state }),
        ),
{
    crate::interrupts::lemma_first_pending(Cpu::<B>::pending_spec(state));
}

} // verus!
