use rgb_emu::bus::{Bus, DmgBus};
use rgb_emu::cartridge::{from_rom, Mbc};
use rgb_emu::cpu::{Cpu, RegisterPair};
use rgb_emu::interrupts::{acknowledged, first_pending, pending, raised, Interrupt};

const CODE: u16 = 0xC000;
const STACK: u16 = 0xDFF0;

fn stepper(program: &[u8]) -> Cpu<DmgBus<Mbc>> {
    let mut cpu = Cpu::new(DmgBus::new());
    cpu.bus.wram[..program.len()].copy_from_slice(program);
    cpu.registers.pc = CODE;
    cpu.registers.sp = STACK;
    cpu
}

#[test]
fn sources_have_bits_and_vectors() {
    let table = [
        (Interrupt::VBlank, 0x01u8, 0x0040u16),
        (Interrupt::Stat, 0x02, 0x0048),
        (Interrupt::Timer, 0x04, 0x0050),
        (Interrupt::Serial, 0x08, 0x0058),
        (Interrupt::Joypad, 0x10, 0x0060),
    ];
    for &(source, mask, vector) in &table {
        assert_eq!(source.mask(), mask);
        assert_eq!(source.vector(), vector);
    }
}

#[test]
fn pending_needs_enable_and_request() {
    assert_eq!(pending(0x00, 0xFF), 0x00);
    assert_eq!(pending(0xFF, 0x00), 0x00);
    assert_eq!(pending(0xFF, 0xE0), 0x00);
    assert_eq!(pending(0xE0, 0xFF), 0x00);
    assert_eq!(pending(0x15, 0x0E), 0x04);
    assert_eq!(pending(0xFF, 0xFF), 0x1F);
}

#[test]
fn lowest_bit_is_served_first() {
    assert_eq!(first_pending(0x00), None);
    assert_eq!(first_pending(0xE0), None);
    assert_eq!(first_pending(0x01), Some(Interrupt::VBlank));
    assert_eq!(first_pending(0x1F), Some(Interrupt::VBlank));
    assert_eq!(first_pending(0x1E), Some(Interrupt::Stat));
    assert_eq!(first_pending(0x1C), Some(Interrupt::Timer));
    assert_eq!(first_pending(0x18), Some(Interrupt::Serial));
    assert_eq!(first_pending(0x10), Some(Interrupt::Joypad));
    assert_eq!(first_pending(0xF4), Some(Interrupt::Timer));
}

#[test]
fn acknowledging_clears_one_bit() {
    assert_eq!(acknowledged(0xFF, Interrupt::VBlank), 0xFE);
    assert_eq!(acknowledged(0xFF, Interrupt::Timer), 0xFB);
    assert_eq!(acknowledged(0x1F, Interrupt::Joypad), 0x0F);
    assert_eq!(acknowledged(0x00, Interrupt::Serial), 0x00);
    assert_eq!(acknowledged(0xE4, Interrupt::Timer), 0xE0);
}

#[test]
fn raising_sets_one_bit() {
    assert_eq!(raised(0x00, Interrupt::VBlank), 0x01);
    assert_eq!(raised(0x01, Interrupt::VBlank), 0x01);
    assert_eq!(raised(0xE0, Interrupt::Timer), 0xE4);
    assert_eq!(raised(0x0F, Interrupt::Joypad), 0x1F);
    assert_eq!(raised(0x10, Interrupt::Stat), 0x12);
    for flags in 0u8..=255 {
        for source in [Interrupt::VBlank, Interrupt::Stat, Interrupt::Timer, Interrupt::Serial, Interrupt::Joypad] {
            assert_eq!(acknowledged(raised(flags, source), source), flags & !source.mask());
            assert_eq!(raised(acknowledged(flags, source), source), flags | source.mask());
        }
    }
}

#[test]
fn step_runs_one_instruction() {
    let mut cpu = stepper(&[0x3E, 0x12, 0x06, 0x34]);
    cpu.step();
    assert_eq!(cpu.registers.a, 0x12);
    assert_eq!(cpu.registers.pc, CODE + 2);
    cpu.step();
    assert_eq!(cpu.registers.b, 0x34);
    assert_eq!(cpu.registers.pc, CODE + 4);
    assert_eq!(cpu.pending_interrupts(), 0);
}

#[test]
fn interrupt_dispatch() {
    let mut cpu = stepper(&[0x00, 0x00]);
    cpu.ime = true;
    cpu.bus.set_interrupt_enable(0x1F);
    cpu.bus.set_interrupt_flags(0x14);
    assert_eq!(cpu.pending_interrupts(), 0x14);
    cpu.step();
    // The timer is served before the joypad.
    assert_eq!(cpu.registers.pc, 0x0050);
    assert!(!cpu.ime);
    assert_eq!(cpu.bus.get_interrupt_flags(), 0x10);
    assert_eq!(cpu.registers.sp, STACK - 2);
    assert_eq!(cpu.bus.peek_byte(STACK - 2), 0x00);
    assert_eq!(cpu.bus.peek_byte(STACK - 1), 0xC0);
    // Five machine cycles.
    assert_eq!(cpu.bus.timer.sysclock, 20);
}

#[test]
fn dispatch_is_callable_directly() {
    let mut cpu = stepper(&[]);
    cpu.ime = true;
    cpu.registers.pc = 0xC123;
    cpu.bus.set_interrupt_flags(0xFF);
    cpu.dispatch(Interrupt::Serial);
    assert_eq!(cpu.registers.pc, 0x0058);
    assert_eq!(cpu.bus.get_interrupt_flags(), 0xF7);
    assert_eq!(cpu.pop(), 0xC123);
    assert!(!cpu.ime);
}

#[test]
fn nothing_is_served_while_the_master_enable_is_clear() {
    let mut cpu = stepper(&[0x00, 0x00]);
    cpu.bus.set_interrupt_enable(0x1F);
    cpu.bus.set_interrupt_flags(0x1F);
    cpu.step();
    assert_eq!(cpu.registers.pc, CODE + 1);
    assert_eq!(cpu.bus.get_interrupt_flags(), 0x1F);
    assert_eq!(cpu.registers.sp, STACK);
}

#[test]
fn masked_requests_are_not_served() {
    let mut cpu = stepper(&[0x00, 0x00]);
    cpu.ime = true;
    cpu.bus.set_interrupt_enable(0x01);
    cpu.bus.set_interrupt_flags(0x1E);
    cpu.step();
    assert_eq!(cpu.registers.pc, CODE + 1);
    assert!(cpu.ime);
}

#[test]
fn enable_interrupts_is_delayed_by_one_instruction() {
    // EI; INC A; INC A
    let mut cpu = stepper(&[0xFB, 0x3C, 0x3C]);
    cpu.bus.set_interrupt_enable(0x01);
    cpu.bus.set_interrupt_flags(0x01);
    cpu.step();
    assert!(!cpu.ime);
    assert!(cpu.ime_delayed);
    // The instruction behind EI runs although a request is pending.
    cpu.step();
    assert_eq!(cpu.registers.a, 1);
    assert_eq!(cpu.registers.pc, CODE + 2);
    assert!(cpu.ime);
    assert!(!cpu.ime_delayed);
    // At the boundary after it the request is served.
    cpu.step();
    assert_eq!(cpu.registers.a, 1);
    assert_eq!(cpu.registers.pc, 0x0040);
    assert!(!cpu.ime);
    assert_eq!(cpu.pop(), CODE + 2);
}

#[test]
fn disable_behind_enable_leaves_interrupts_off() {
    // EI; DI; NOP
    let mut cpu = stepper(&[0xFB, 0xF3, 0x00]);
    cpu.bus.set_interrupt_enable(0x01);
    cpu.bus.set_interrupt_flags(0x01);
    cpu.step();
    cpu.step();
    assert!(!cpu.ime);
    cpu.step();
    assert_eq!(cpu.registers.pc, CODE + 3);
}

#[test]
fn halt_waits_for_a_pending_interrupt() {
    // HALT; INC A
    let mut cpu = stepper(&[0x76, 0x3C]);
    cpu.bus.set_interrupt_enable(0x04);
    cpu.step();
    assert!(cpu.halted);
    for cycle in 1..=10u16 {
        cpu.step();
        assert!(cpu.halted);
        assert_eq!(cpu.registers.pc, CODE + 1);
        // One fetch for HALT, then one cycle per boundary.
        assert_eq!(cpu.bus.timer.sysclock, 4 + 4 * cycle);
    }
    // A request ends the halt without being served: the master enable is clear.
    cpu.bus.set_interrupt_flags(0x04);
    cpu.step();
    assert!(!cpu.halted);
    assert_eq!(cpu.registers.a, 1);
    assert_eq!(cpu.registers.pc, CODE + 2);
    assert_eq!(cpu.bus.get_interrupt_flags(), 0x04);
}

#[test]
fn halt_is_left_through_the_vector_when_enabled() {
    let mut cpu = stepper(&[0x76, 0x3C]);
    cpu.ime = true;
    cpu.bus.set_interrupt_enable(0x04);
    cpu.step();
    cpu.step();
    assert!(cpu.halted);
    cpu.bus.set_interrupt_flags(0x04);
    cpu.step();
    assert!(!cpu.halted);
    assert_eq!(cpu.registers.pc, 0x0050);
    assert_eq!(cpu.registers.a, 0);
    assert_eq!(cpu.pop(), CODE + 1);
}

#[test]
fn halt_ends_on_timer_overflow() {
    // HALT with the timer about to overflow.
    let mut cpu = stepper(&[0x76, 0x00]);
    cpu.bus.set_interrupt_enable(0x04);
    cpu.bus.write_byte(0xFF06, 0x42);
    cpu.bus.write_byte(0xFF05, 0xFF);
    cpu.bus.write_byte(0xFF07, 0x05);
    cpu.step();
    let mut boundaries = 0;
    while cpu.halted && boundaries < 100 {
        cpu.step();
        boundaries += 1;
    }
    assert!(!cpu.halted);
    assert!(boundaries <= 5);
    assert_eq!(cpu.bus.peek_byte(0xFF05), 0x42);
    assert_eq!(cpu.bus.get_interrupt_flags() & 0x04, 0x04);
}

#[test]
fn illegal_opcode_is_stepped_over() {
    let mut cpu = stepper(&[0xD3, 0x3C]);
    let before = cpu.registers;
    cpu.step();
    assert_eq!(cpu.registers.pc, CODE + 1);
    assert_eq!(cpu.registers.a, before.a);
    cpu.step();
    assert_eq!(cpu.registers.a, 1);
}

#[test]
fn boot_rom_runs_to_the_cartridge_entry() {
    // A boot program that sets the stack pointer and the registers the
    // way the real one leaves them, unmaps itself with its last
    // instruction at 0xFE, and so falls through to 0x0100.
    let mut boot = vec![0x00u8; 256];
    let program = [
        0x31, 0xFE, 0xFF, // LD SP,0xFFFE
        0x01, 0x13, 0x00, // LD BC,0x0013
        0x11, 0xD8, 0x00, // LD DE,0x00D8
        0x21, 0x4D, 0x01, // LD HL,0x014D
        0x3E, 0x01, // LD A,0x01
    ];
    boot[..program.len()].copy_from_slice(&program);
    boot[0xFE] = 0xE0; // LDH (0x50),A
    boot[0xFF] = 0x50;
    let mut rom = vec![0x00u8; 0x8000];
    rom[0x0000] = 0x76; // never fetched while the boot ROM is mapped
    let mut cpu: Cpu<DmgBus<Mbc>> = Cpu::new(DmgBus::new());
    match from_rom(rom) {
        Ok(cartridge) => cpu.bus.insert_cartridge(cartridge),
        Err(error) => panic!("image was refused: {}", error.reason()),
    }
    cpu.bus.set_boot_rom(boot);
    let mut steps = 0;
    while cpu.registers.pc != 0x0100 {
        assert!(cpu.bus.bootrom_enabled);
        assert!(cpu.registers.pc < 0x0100);
        cpu.step();
        steps += 1;
        assert!(steps < 1000);
    }
    assert!(!cpu.bus.bootrom_enabled);
    assert!(!cpu.halted);
    assert_eq!(cpu.registers.pc, 0x0100);
    assert_eq!(cpu.registers.a, 0x01);
    assert_eq!(cpu.get_register_pair(&RegisterPair::BC), 0x0013);
    assert_eq!(cpu.get_register_pair(&RegisterPair::DE), 0x00D8);
    assert_eq!(cpu.get_register_pair(&RegisterPair::HL), 0x014D);
    assert_eq!(cpu.registers.sp, 0xFFFE);
    assert_eq!(cpu.bus.peek_byte(0x0000), 0x76);
}
