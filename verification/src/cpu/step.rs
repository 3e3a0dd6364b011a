use crate::bus::Bus;
use crate::cpu::{Cpu, CpuState};
use crate::interrupts::{
    acknowledged, first_pending, first_pending_spec, pending, pending_spec, without_source,
    Interrupt,
};
use vstd::prelude::*;

verus! {

impl<B: Bus> Cpu<B> {
    /// The sources that are both enabled and requested, as a mask.
    pub open spec fn pending_spec(state: CpuState<B::V>) -> u8 {
        pending_spec(B::interrupt_enable_spec(state.bus), B::interrupt_flags_spec(state.bus))
    }

    /// The state after the request of `source` is served. The request is
    /// taken back and the master enable cleared; two machine cycles pass;
    /// the program counter is pushed, which takes two more; a fifth
    /// passes, and execution goes on at the vector of the source.
    pub open spec fn dispatch_spec(state: CpuState<B::V>, source: Interrupt) -> CpuState<B::V> {
        let taken = B::with_interrupt_flags(
            state.bus,
            without_source(B::interrupt_flags_spec(state.bus), source),
        );
        let waited = B::tick_spec(B::tick_spec(taken));
        let pushed = Self::push_spec(
            CpuState { ime: false, bus: waited, ..state },
            state.registers.pc,
        );
        pushed.with_bus(B::tick_spec(pushed.bus)).with_pc(source.vector_spec())
    }

    /// The state in which the next instruction is fetched: a delayed
    /// enable has become the master enable.
    pub open spec fn promoted_spec(state: CpuState<B::V>) -> CpuState<B::V> {
        CpuState { ime: state.ime || state.ime_delayed, ime_delayed: false, ..state }
    }

    /// The state after one instruction has been fetched, decoded and
    /// executed.
    pub open spec fn run_spec(state: CpuState<B::V>) -> CpuState<B::V> {
        let (opcode, fetched) = Self::fetch8_spec(state);
        let (instruction, decoded) = Self::decode_spec(fetched, opcode);
        Self::execute_spec(decoded, instruction)
    }

    /// What happens at an instruction boundary.
    ///
    /// A halted processor with nothing pending lets one machine cycle
    /// pass. Anything pending ends the halt, whatever the master enable
    /// says. Then, with the master enable set and a request pending, the
    /// request is served; otherwise a delayed enable becomes the master
    /// enable and one instruction runs.
    ///
    /// The hardware is known to fetch the byte behind a halt twice when
    /// the halt is entered with the master enable clear and a request
    /// pending. That quirk is left out: the halt ends and execution goes
    /// on behind it.
    pub open spec fn step_spec(state: CpuState<B::V>) -> CpuState<B::V> {
        let source = first_pending_spec(Self::pending_spec(state));
        if state.halted && source is None {
            state.with_bus(B::tick_spec(state.bus))
        } else {
            let awake = CpuState { halted: false, ..state };
            if awake.ime && source is Some {
                Self::dispatch_spec(awake, source->0)
            } else {
                Self::run_spec(Self::promoted_spec(awake))
            }
        }
    }

    /// The sources that are both enabled and requested, as a mask.
    pub fn pending_interrupts(&self) -> (mask: u8)
        ensures
            mask == Self::pending_spec(self@),
    {
        pending(self.bus.get_interrupt_enable(), self.bus.get_interrupt_flags())
    }

    /// Serves the request of `source`: five machine cycles, of which two
    /// push the program counter.
    pub fn dispatch(&mut self, source: Interrupt)
        ensures
            final(self)@ == Self::dispatch_spec(old(self)@, source),
    {
        let flags = self.bus.get_interrupt_flags();
        self.bus.set_interrupt_flags(acknowledged(flags, source));
        self.ime = false;
        self.bus.tick();
        self.bus.tick();
        self.push(self.registers.pc);
        self.bus.tick();
        self.registers.pc = source.vector();
    }

    /// Moves the processor over one instruction boundary: it waits in a
    /// halt, serves an interrupt, or runs one instruction.
    pub fn step(&mut self)
        ensures
            final(self)@ == Self::step_spec(old(self)@),
    {
        let source = first_pending(self.pending_interrupts());
        if self.halted && source.is_none() {
            self.bus.tick();
            return;
        }
        self.halted = false;
        if self.ime {
            if let Some(source) = source {
                self.dispatch(source);
                return;
            }
        }
        if self.ime_delayed {
            self.ime = true;
            self.ime_delayed = false;
        }
        let opcode = self.fetch();
        let instruction = self.decode(opcode);
        self.execute(instruction);
    }
}

} // verus!
