use crate::cartridge::{Cartridge, JsMoo, OPEN_BUS, RAM_END, RAM_START, ROM_END};
use crate::interrupts::{raised, with_source, Interrupt};
use crate::ppu::{Ppu, PpuState};
use crate::timer::{Timer, DIV, TAC, TIMA};
use vstd::prelude::*;

verus! {

/// Size of the boot ROM in bytes.
pub const BOOT_ROM_SIZE: usize = 0x100;

/// Size of work RAM in bytes.
pub const WRAM_SIZE: usize = 0x2000;

/// Size of high RAM in bytes.
pub const HRAM_SIZE: usize = 127;

/// First address of video RAM.
pub const VRAM_START: u16 = 0x8000;

/// First address of work RAM.
pub const WRAM_START: u16 = 0xC000;

/// First address of the echo of work RAM.
pub const ECHO_START: u16 = 0xE000;

/// First address of object-attribute RAM.
pub const OAM_START: u16 = 0xFE00;

/// First address of the unused range below the I/O registers.
pub const UNUSED_START: u16 = 0xFEA0;

/// First address of the I/O registers.
pub const IO_START: u16 = 0xFF00;

/// Address of the serial data register.
pub const SERIAL_DATA: u16 = 0xFF01;

/// Address of the serial control register.
pub const SERIAL_CONTROL: u16 = 0xFF02;

/// Address of the interrupt-flag register.
pub const INTERRUPT_FLAGS: u16 = 0xFF0F;

/// Address of the display's vertical scroll register.
pub const SCROLL_Y: u16 = 0xFF42;

/// Address of the display's current-line register.
pub const LCD_LINE: u16 = 0xFF44;

/// Address of the port that unmaps the boot ROM.
pub const BOOT_ROM_DISABLE: u16 = 0xFF50;

/// First address of high RAM.
pub const HRAM_START: u16 = 0xFF80;

/// Address of the interrupt-enable register.
pub const INTERRUPT_ENABLE: u16 = 0xFFFF;

/// The line that the display reports while it draws nothing.
pub const LCD_LINE_VALUE: u8 = 0x90;

/// The bits of the interrupt-flag register that always read as 1.
pub const FLAGS_UNUSED: u8 = 0xE0;

/// The system counter's value once the boot ROM has run.
pub const POST_BOOT_SYSCLOCK: u16 = 0xABCC;

/// The address after `address`, wrapping at the top of the address space.
pub open spec fn next_address(address: u16) -> u16 {
    if address == 0xFFFF {
        0
    } else {
        (address + 1) as u16
    }
}

/// The memory bus as the processor sees it.
///
/// A bus is described by four functions of its state, as its view gives
/// it: what an address holds, what a store leaves behind, what one machine
/// cycle does to the peripherals, and the two interrupt registers. Every
/// byte transfer is the access followed by one machine cycle; a word
/// transfer is two byte transfers, low byte first.
pub trait Bus: View + Sized {
    /// The byte that `address` holds.
    spec fn peek_spec(m: Self::V, address: u16) -> u8;

    /// The state after `value` is stored at `address`, before any time
    /// passes.
    spec fn store_spec(m: Self::V, address: u16, value: u8) -> Self::V;

    /// The state after one machine cycle of every peripheral.
    spec fn tick_spec(m: Self::V) -> Self::V;

    /// The interrupt-enable register.
    spec fn interrupt_enable_spec(m: Self::V) -> u8;

    /// The interrupt-flag register, as stored.
    spec fn interrupt_flags_spec(m: Self::V) -> u8;

    /// The state with the interrupt-enable register replaced.
    spec fn with_interrupt_enable(m: Self::V, value: u8) -> Self::V;

    /// The state with the interrupt-flag register replaced.
    spec fn with_interrupt_flags(m: Self::V, flags: u8) -> Self::V;

    /// The state that the boot ROM leaves the peripherals in.
    spec fn post_boot_spec(m: Self::V) -> Self::V;

    /// Lets one machine cycle pass.
    fn tick(&mut self)
        ensures
            final(self)@ == Self::tick_spec(old(self)@),
    ;

    /// Reads the byte at `address`; one machine cycle passes.
    fn read_byte(&mut self, address: u16) -> (byte: u8)
        ensures
            byte == Self::peek_spec(old(self)@, address),
            final(self)@ == Self::tick_spec(old(self)@),
    ;

    /// Reads the byte at `address` without any time passing.
    fn peek_byte(&self, address: u16) -> (byte: u8)
        ensures
            byte == Self::peek_spec(self@, address),
    ;

    /// Reads the little-endian word at `address`; two machine cycles pass.
    fn read_word(&mut self, address: u16) -> (word: u16)
        ensures
            word == Self::peek_spec(Self::tick_spec(old(self)@), next_address(address)) * 256
                + Self::peek_spec(old(self)@, address),
            final(self)@ == Self::tick_spec(Self::tick_spec(old(self)@)),
    ;

    /// Stores `value` at `address`; one machine cycle passes.
    fn write_byte(&mut self, address: u16, value: u8)
        ensures
            final(self)@ == Self::tick_spec(Self::store_spec(old(self)@, address, value)),
    ;

    /// Stores `value` at `address`, low byte first; two machine cycles
    /// pass.
    fn write_word(&mut self, address: u16, value: u16)
        ensures
            final(self)@ == Self::tick_spec(
                Self::store_spec(
                    Self::tick_spec(Self::store_spec(old(self)@, address, (value % 256) as u8)),
                    next_address(address),
                    (value / 256) as u8,
                ),
            ),
    ;

    /// Puts the peripherals in the state the boot ROM leaves them in.
    fn set_post_boot_state(&mut self)
        ensures
            final(self)@ == Self::post_boot_spec(old(self)@),
    ;

    /// Reads the interrupt-enable register; no time passes.
    fn get_interrupt_enable(&self) -> (value: u8)
        ensures
            value == Self::interrupt_enable_spec(self@),
    ;

    /// Replaces the interrupt-enable register; no time passes.
    fn set_interrupt_enable(&mut self, value: u8)
        ensures
            final(self)@ == Self::with_interrupt_enable(old(self)@, value),
    ;

    /// Reads the interrupt-flag register as stored; no time passes.
    fn get_interrupt_flags(&self) -> (flags: u8)
        ensures
            flags == Self::interrupt_flags_spec(self@),
    ;

    /// Replaces the interrupt-flag register; no time passes.
    fn set_interrupt_flags(&mut self, flags: u8)
        ensures
            final(self)@ == Self::with_interrupt_flags(old(self)@, flags),
    ;
}

/// The state after a byte read: the access, then one machine cycle.
pub open spec fn read_spec<B: Bus>(m: B::V, address: u16) -> (u8, B::V) {
    (B::peek_spec(m, address), B::tick_spec(m))
}

/// The state after a byte write: the store, then one machine cycle.
pub open spec fn write_spec<B: Bus>(m: B::V, address: u16, value: u8) -> B::V {
    B::tick_spec(B::store_spec(m, address, value))
}

/// A word read: the low byte from `address`, then the high byte from the
/// address after it, each followed by one machine cycle.
pub open spec fn read_word_spec<B: Bus>(m: B::V, address: u16) -> (u16, B::V) {
    let (low, m1) = read_spec::<B>(m, address);
    let (high, m2) = read_spec::<B>(m1, next_address(address));
    ((high * 256 + low) as u16, m2)
}

/// A word write: the low byte to `address`, then the high byte to the
/// address after it, each followed by one machine cycle.
pub open spec fn write_word_spec<B: Bus>(m: B::V, address: u16, value: u16) -> B::V {
    let m1 = write_spec::<B>(m, address, (value % 256) as u8);
    write_spec::<B>(m1, next_address(address), (value / 256) as u8)
}

/// The state after `n` machine cycles without an access in between.
pub open spec fn ticks_spec<B: Bus>(m: B::V, n: nat) -> B::V
    decreases n,
{
    if n == 0 {
        m
    } else {
        ticks_spec::<B>(B::tick_spec(m), (n - 1) as nat)
    }
}

/// A word read returns the byte at `address` as its low half, and as its
/// high half the byte that the next address holds one machine cycle later.
pub proof fn lemma_read_word_bytes<B: Bus>(m: B::V, address: u16)
    ensures
        read_word_spec::<B>(m, address).0 == B::peek_spec(
            B::tick_spec(m),
            next_address(address),
        ) * 256 + B::peek_spec(m, address),
        read_word_spec::<B>(m, address).1 == ticks_spec::<B>(m, 2),
{
    reveal_with_fuel(ticks_spec, 3);
}

/// Where the machine cycle between the two reads leaves the high byte as
/// it was, a word read returns the two bytes that a peek finds at
/// `address` and after it.
pub proof fn lemma_read_word_is_two_peeks<B: Bus>(m: B::V, address: u16)
    requires
        B::peek_spec(B::tick_spec(m), next_address(address)) == B::peek_spec(
            m,
            next_address(address),
        ),
    ensures
        read_word_spec::<B>(m, address).0 == B::peek_spec(m, next_address(address)) * 256
            + B::peek_spec(m, address),
{
}

/// The console's bus: boot ROM, work and high RAM, the serial and
/// interrupt registers, and the display, timer and cartridge it owns.
pub struct DmgBus<C: Cartridge> {
    pub bootrom: [u8; 256],
    pub ppu: Ppu,
    pub wram: [u8; 0x2000],
    pub hram: [u8; 127],
    pub bootrom_enabled: bool,
    pub interrupt_enable: u8,
    pub interrupt_flags: u8,
    pub serial: u8,
    pub serial_control: u8,
    pub timer: Timer,
    pub cartridge: Option<C>,
}

/// The bus's state as mathematical values, over the state `M` of its
/// cartridge.
pub struct BusState<M> {
    pub bootrom: Seq<u8>,
    pub ppu: PpuState,
    pub wram: Seq<u8>,
    pub hram: Seq<u8>,
    pub bootrom_enabled: bool,
    pub interrupt_enable: u8,
    pub interrupt_flags: u8,
    pub serial: u8,
    pub serial_control: u8,
    pub timer: Timer,
    pub cartridge: Option<M>,
}

impl<C: Cartridge> View for DmgBus<C> {
    type V = BusState<C::V>;

    open spec fn view(&self) -> BusState<C::V> {
        BusState {
            bootrom: self.bootrom@,
            ppu: self.ppu@,
            wram: self.wram@,
            hram: self.hram@,
            bootrom_enabled: self.bootrom_enabled,
            interrupt_enable: self.interrupt_enable,
            interrupt_flags: self.interrupt_flags,
            serial: self.serial,
            serial_control: self.serial_control,
            timer: self.timer,
            cartridge: match self.cartridge {
                Some(cartridge) => Some(cartridge@),
                None => None,
            },
        }
    }
}

impl<M> BusState<M> {
    /// Every memory has its hardware size.
    pub open spec fn wf(self) -> bool {
        &&& self.bootrom.len() == BOOT_ROM_SIZE
        &&& self.wram.len() == WRAM_SIZE
        &&& self.hram.len() == HRAM_SIZE
        &&& self.ppu.wf()
    }
}

/// The state of a bus as it is when the console is switched on: every
/// memory and register zero, the boot ROM unmapped, no cartridge.
pub open spec fn power_on_state<M>() -> BusState<M> {
    BusState {
        bootrom: Seq::new(BOOT_ROM_SIZE as nat, |i: int| 0u8),
        ppu: PpuState {
            vram: Seq::new(crate::ppu::VRAM_SIZE as nat, |i: int| 0u8),
            oam: Seq::new(crate::ppu::OAM_SIZE as nat, |i: int| 0u8),
            scy: 0,
        },
        wram: Seq::new(WRAM_SIZE as nat, |i: int| 0u8),
        hram: Seq::new(HRAM_SIZE as nat, |i: int| 0u8),
        bootrom_enabled: false,
        interrupt_enable: 0,
        interrupt_flags: 0,
        serial: 0,
        serial_control: 0,
        timer: Timer {
            sysclock: 0,
            tima: 0,
            tma: 0,
            edge: false,
            tima_enable: false,
            clock_select: 0,
        },
        cartridge: None,
    }
}

/// A value of the interrupt-flag register as it reads: the five bits that
/// stand for a source as they are, the three above them set.
pub open spec fn with_unused_bits(flags: u8) -> u8 {
    (flags % 32 + FLAGS_UNUSED) as u8
}

/// Whether `address` belongs to the cartridge: its ROM or its RAM window.
pub open spec fn is_cartridge_address(address: u16) -> bool {
    address < ROM_END || RAM_START <= address < RAM_END
}

/// The interrupt flags with the request of `irq`, if there is one, added.
pub open spec fn raise(flags: u8, irq: Option<Interrupt>) -> u8 {
    match irq {
        Some(source) => with_source(flags, source),
        None => flags,
    }
}

impl<C: Cartridge> Bus for DmgBus<C> {
    /// Address decoding for reads. The boot ROM covers the first 256
    /// bytes while it is mapped. A missing cartridge reads as open bus.
    /// The echo range shows work RAM. The interrupt flags read with their
    /// three unused bits set. Registers that do not exist read as zero.
    open spec fn peek_spec(m: BusState<C::V>, address: u16) -> u8 {
        if m.bootrom_enabled && address < BOOT_ROM_SIZE {
            m.bootrom[address as int]
        } else if is_cartridge_address(address) {
            match m.cartridge {
                Some(cartridge) => C::read_spec(cartridge, address),
                None => OPEN_BUS,
            }
        } else if address < WRAM_START {
            m.ppu.vram[address - VRAM_START]
        } else if address < ECHO_START {
            m.wram[address - WRAM_START]
        } else if address < OAM_START {
            m.wram[address - ECHO_START]
        } else if address < UNUSED_START {
            m.ppu.oam[address - OAM_START]
        } else if address < IO_START {
            0
        } else if address == SERIAL_DATA {
            m.serial
        } else if address == SERIAL_CONTROL {
            m.serial_control
        } else if DIV <= address <= TAC {
            m.timer.read_spec(address)
        } else if address == INTERRUPT_FLAGS {
            with_unused_bits(m.interrupt_flags)
        } else if address == SCROLL_Y {
            m.ppu.scy
        } else if address == LCD_LINE {
            LCD_LINE_VALUE
        } else if address < HRAM_START {
            0
        } else if address < INTERRUPT_ENABLE {
            m.hram[address - HRAM_START]
        } else {
            m.interrupt_enable
        }
    }

    /// Address decoding for writes. Cartridge addresses go to the
    /// cartridge, also while the boot ROM is mapped. A non-zero write to
    /// the boot-ROM port unmaps the boot ROM; nothing maps it again.
    /// Writes to addresses that hold nothing are ignored.
    open spec fn store_spec(m: BusState<C::V>, address: u16, value: u8) -> BusState<C::V> {
        if is_cartridge_address(address) {
            match m.cartridge {
                Some(cartridge) => BusState {
                    cartridge: Some(C::write_spec(cartridge, address, value)),
                    ..m
                },
                None => m,
            }
        } else if address < WRAM_START {
            BusState {
                ppu: PpuState { vram: m.ppu.vram.update(address - VRAM_START, value), ..m.ppu },
                ..m
            }
        } else if address < ECHO_START {
            BusState { wram: m.wram.update(address - WRAM_START, value), ..m }
        } else if address < OAM_START {
            BusState { wram: m.wram.update(address - ECHO_START, value), ..m }
        } else if address < UNUSED_START {
            BusState {
                ppu: PpuState { oam: m.ppu.oam.update(address - OAM_START, value), ..m.ppu },
                ..m
            }
        } else if address == SERIAL_DATA {
            BusState { serial: value, ..m }
        } else if address == SERIAL_CONTROL {
            BusState { serial_control: value, ..m }
        } else if DIV <= address <= TAC {
            BusState { timer: m.timer.write_spec(address, value), ..m }
        } else if address == INTERRUPT_FLAGS {
            BusState { interrupt_flags: with_unused_bits(value), ..m }
        } else if address == SCROLL_Y {
            BusState { ppu: PpuState { scy: value, ..m.ppu }, ..m }
        } else if address == BOOT_ROM_DISABLE {
            BusState { bootrom_enabled: m.bootrom_enabled && value == 0, ..m }
        } else if HRAM_START <= address < INTERRUPT_ENABLE {
            BusState { hram: m.hram.update(address - HRAM_START, value), ..m }
        } else if address == INTERRUPT_ENABLE {
            BusState { interrupt_enable: value, ..m }
        } else {
            m
        }
    }

    /// One machine cycle: the display first, then the timer; what either
    /// requests is added to the interrupt flags.
    open spec fn tick_spec(m: BusState<C::V>) -> BusState<C::V> {
        let (ppu, display_irq) = m.ppu.tick_spec();
        let (timer, timer_irq) = m.timer.tick_spec();
        BusState {
            ppu,
            timer,
            interrupt_flags: raise(raise(m.interrupt_flags, display_irq), timer_irq),
            ..m
        }
    }

    open spec fn interrupt_enable_spec(m: BusState<C::V>) -> u8 {
        m.interrupt_enable
    }

    open spec fn interrupt_flags_spec(m: BusState<C::V>) -> u8 {
        m.interrupt_flags
    }

    open spec fn with_interrupt_enable(m: BusState<C::V>, value: u8) -> BusState<C::V> {
        BusState { interrupt_enable: value, ..m }
    }

    open spec fn with_interrupt_flags(m: BusState<C::V>, flags: u8) -> BusState<C::V> {
        BusState { interrupt_flags: flags, ..m }
    }

    /// After the boot ROM the divider reads 0xAB.
    open spec fn post_boot_spec(m: BusState<C::V>) -> BusState<C::V> {
        BusState { timer: Timer { sysclock: POST_BOOT_SYSCLOCK, ..m.timer }, ..m }
    }

    fn tick(&mut self) {
        if let Some(irq) = self.ppu.tick() {
            self.interrupt_flags = raised(self.interrupt_flags, irq);
        }
        if let Some(irq) = self.timer.tick() {
            self.interrupt_flags = raised(self.interrupt_flags, irq);
        }
    }

    fn peek_byte(&self, address: u16) -> (byte: u8) {
        if self.bootrom_enabled && address < 0x100 {
            self.bootrom[address as usize]
        } else if address < ROM_END || (RAM_START <= address && address < RAM_END) {
            match &self.cartridge {
                Some(cartridge) => cartridge.read_byte(address),
                None => OPEN_BUS,
            }
        } else if address < WRAM_START {
            self.ppu.vram[(address - VRAM_START) as usize]
        } else if address < ECHO_START {
            self.wram[(address - WRAM_START) as usize]
        } else if address < OAM_START {
            self.wram[(address - ECHO_START) as usize]
        } else if address < UNUSED_START {
            self.ppu.oam[(address - OAM_START) as usize]
        } else if address < IO_START {
            0
        } else if address == SERIAL_DATA {
            self.serial
        } else if address == SERIAL_CONTROL {
            self.serial_control
        } else if DIV <= address && address <= TAC {
            self.timer.read_byte(address)
        } else if address == INTERRUPT_FLAGS {
            proof {
                lemma_unused_flag_bits(self.interrupt_flags);
            }
            self.interrupt_flags | FLAGS_UNUSED
        } else if address == SCROLL_Y {
            self.ppu.scy
        } else if address == LCD_LINE {
            LCD_LINE_VALUE
        } else if address < HRAM_START {
            0
        } else if address < INTERRUPT_ENABLE {
            self.hram[(address - HRAM_START) as usize]
        } else {
            self.interrupt_enable
        }
    }

    fn read_byte(&mut self, address: u16) -> (byte: u8) {
        let byte = self.peek_byte(address);
        self.tick();
        byte
    }

    fn read_word(&mut self, address: u16) -> (word: u16) {
        let low = self.read_byte(address);
        let high = self.read_byte(address.wrapping_add(1));
        proof {
            lemma_word_of_bytes(high, low);
        }
        (high as u16) << 8 | (low as u16)
    }

    fn write_byte(&mut self, address: u16, value: u8) {
        if address < ROM_END || (RAM_START <= address && address < RAM_END) {
            match &mut self.cartridge {
                Some(cartridge) => cartridge.write_byte(address, value),
                None => {},
            }
        } else if address < WRAM_START {
            self.ppu.vram[(address - VRAM_START) as usize] = value;
        } else if address < ECHO_START {
            self.wram[(address - WRAM_START) as usize] = value;
        } else if address < OAM_START {
            self.wram[(address - ECHO_START) as usize] = value;
        } else if address < UNUSED_START {
            self.ppu.oam[(address - OAM_START) as usize] = value;
        } else if address == SERIAL_DATA {
            self.serial = value;
        } else if address == SERIAL_CONTROL {
            self.serial_control = value;
        } else if DIV <= address && address <= TAC {
            self.timer.write_byte(address, value);
        } else if address == INTERRUPT_FLAGS {
            proof {
                lemma_unused_flag_bits(value);
            }
            self.interrupt_flags = value | FLAGS_UNUSED;
        } else if address == SCROLL_Y {
            self.ppu.scy = value;
        } else if address == BOOT_ROM_DISABLE {
            if value > 0 {
                self.bootrom_enabled = false;
            }
        } else if HRAM_START <= address && address < INTERRUPT_ENABLE {
            self.hram[(address - HRAM_START) as usize] = value;
        } else if address == INTERRUPT_ENABLE {
            self.interrupt_enable = value;
        }
        self.tick();
    }

    fn write_word(&mut self, address: u16, value: u16) {
        proof {
            lemma_bytes_of_word(value);
        }
        self.write_byte(address, (value & 0xFF) as u8);
        self.write_byte(address.wrapping_add(1), (value >> 8) as u8);
    }

    fn set_post_boot_state(&mut self) {
        self.timer.sysclock = POST_BOOT_SYSCLOCK;
    }

    fn get_interrupt_enable(&self) -> (value: u8) {
        self.interrupt_enable
    }

    fn set_interrupt_enable(&mut self, value: u8) {
        self.interrupt_enable = value;
    }

    fn get_interrupt_flags(&self) -> (flags: u8) {
        self.interrupt_flags
    }

    fn set_interrupt_flags(&mut self, flags: u8) {
        self.interrupt_flags = flags;
    }
}

/// Flat memory as a bus: all the processor sees is 64 KiB of RAM. No time
/// passes and no peripheral exists; the two interrupt registers are the
/// bytes at their addresses.
impl Bus for JsMoo {
    open spec fn peek_spec(m: Seq<u8>, address: u16) -> u8 {
        m[address as int]
    }

    open spec fn store_spec(m: Seq<u8>, address: u16, value: u8) -> Seq<u8> {
        m.update(address as int, value)
    }

    open spec fn tick_spec(m: Seq<u8>) -> Seq<u8> {
        m
    }

    open spec fn interrupt_enable_spec(m: Seq<u8>) -> u8 {
        m[INTERRUPT_ENABLE as int]
    }

    open spec fn interrupt_flags_spec(m: Seq<u8>) -> u8 {
        m[INTERRUPT_FLAGS as int]
    }

    open spec fn with_interrupt_enable(m: Seq<u8>, value: u8) -> Seq<u8> {
        m.update(INTERRUPT_ENABLE as int, value)
    }

    open spec fn with_interrupt_flags(m: Seq<u8>, flags: u8) -> Seq<u8> {
        m.update(INTERRUPT_FLAGS as int, flags)
    }

    open spec fn post_boot_spec(m: Seq<u8>) -> Seq<u8> {
        m
    }

    fn tick(&mut self) {
    }

    fn peek_byte(&self, address: u16) -> (byte: u8) {
        self.ram[address as usize]
    }

    fn read_byte(&mut self, address: u16) -> (byte: u8) {
        self.ram[address as usize]
    }

    fn read_word(&mut self, address: u16) -> (word: u16) {
        let low = self.ram[address as usize];
        let high = self.ram[address.wrapping_add(1) as usize];
        proof {
            lemma_word_of_bytes(high, low);
        }
        (high as u16) << 8 | (low as u16)
    }

    fn write_byte(&mut self, address: u16, value: u8) {
        self.ram[address as usize] = value;
    }

    fn write_word(&mut self, address: u16, value: u16) {
        proof {
            lemma_bytes_of_word(value);
        }
        self.ram[address as usize] = (value & 0xFF) as u8;
        self.ram[address.wrapping_add(1) as usize] = (value >> 8) as u8;
    }

    fn set_post_boot_state(&mut self) {
    }

    fn get_interrupt_enable(&self) -> (value: u8) {
        self.ram[INTERRUPT_ENABLE as usize]
    }

    fn set_interrupt_enable(&mut self, value: u8) {
        self.ram[INTERRUPT_ENABLE as usize] = value;
    }

    fn get_interrupt_flags(&self) -> (flags: u8) {
        self.ram[INTERRUPT_FLAGS as usize]
    }

    fn set_interrupt_flags(&mut self, flags: u8) {
        self.ram[INTERRUPT_FLAGS as usize] = flags;
    }
}

/// On flat memory every byte written is the byte found afterwards, and a
/// word read returns the two bytes at its address.
pub proof fn lemma_flat_memory(m: Seq<u8>, address: u16, value: u8)
    requires
        m.len() == 0x1_0000,
    ensures
        JsMoo::peek_spec(write_spec::<JsMoo>(m, address, value), address) == value,
        read_word_spec::<JsMoo>(m, address).0 == m[next_address(address) as int] * 256
            + m[address as int],
{
}

/// The word whose high and low halves are `high` and `low`.
pub proof fn lemma_word_of_bytes(high: u8, low: u8)
    by (bit_vector)
    ensures
        (high as u16) << 8u16 | (low as u16) == high * 256 + low,
{
}

/// The low and high halves of a word.
pub proof fn lemma_bytes_of_word(word: u16)
    by (bit_vector)
    ensures
        word & 0xFF == word % 256,
        word >> 8u16 == word / 256,
        word & 0xFF < 256,
        word >> 8u16 < 256,
{
}

impl<C: Cartridge> Default for DmgBus<C> {
    fn default() -> (bus: Self)
        ensures
            bus@ == power_on_state::<C::V>(),
    {
        let bus = DmgBus {
            bootrom: [0u8; 256],
            ppu: Ppu::default(),
            wram: [0u8; 0x2000],
            hram: [0u8; 127],
            bootrom_enabled: false,
            interrupt_enable: 0,
            interrupt_flags: 0,
            serial: 0,
            serial_control: 0,
            timer: Timer::new(),
            cartridge: None,
        };
        assert(bus.bootrom@ =~= power_on_state::<C::V>().bootrom);
        assert(bus.wram@ =~= power_on_state::<C::V>().wram);
        assert(bus.hram@ =~= power_on_state::<C::V>().hram);
        bus
    }
}

impl<C: Cartridge> DmgBus<C> {
    /// A bus as it is when the console is switched on.
    pub fn new() -> (bus: Self)
        ensures
            bus@ == power_on_state::<C::V>(),
    {
        let bus: DmgBus<C> = Default::default();
        bus
    }

    /// Puts `cartridge` in the slot, in the place of the one that was
    /// there.
    pub fn insert_cartridge(&mut self, cartridge: C)
        ensures
            final(self)@ == (BusState { cartridge: Some(cartridge@), ..old(self)@ }),
    {
        self.cartridge = Some(cartridge);
    }

    /// Empties the cartridge slot.
    pub fn remove_cartridge(&mut self)
        ensures
            final(self)@ == (BusState { cartridge: None, ..old(self)@ }),
    {
        self.cartridge = None;
    }

    /// Loads `bootrom` into the boot region and maps it over the first 256
    /// bytes of the address space.
    pub fn set_boot_rom(&mut self, bootrom: Vec<u8>)
        requires
            bootrom@.len() == BOOT_ROM_SIZE,
        ensures
            final(self)@ == (BusState {
                bootrom: bootrom@,
                bootrom_enabled: true,
                ..old(self)@
            }),
    {
        let mut i: usize = 0;
        while i < BOOT_ROM_SIZE
            invariant
                i <= BOOT_ROM_SIZE,
                bootrom@.len() == BOOT_ROM_SIZE,
                forall|j: int| 0 <= j < i ==> self.bootrom@[j] == bootrom@[j],
                self@ == (BusState { bootrom: self.bootrom@, ..old(self)@ }),
            decreases BOOT_ROM_SIZE - i,
        {
            self.bootrom[i] = bootrom[i];
            i = i + 1;
        }
        self.bootrom_enabled = true;
        assert(self.bootrom@ =~= bootrom@);
    }
}

proof fn lemma_unused_flag_bits(flags: u8)
    by (bit_vector)
    ensures
        flags | 0xE0 == flags % 32 + 0xE0,
        (flags | 0xE0) & 0xE0 == 0xE0,
        (flags | 0xE0) & 0x1F == flags & 0x1F,
{
}

/// A read of the interrupt-flag register finds bits 5 to 7 set, whatever
/// the register holds, and the five bits below them as they are stored.
pub proof fn lemma_interrupt_flags_read<C: Cartridge>(m: BusState<C::V>)
    ensures
        DmgBus::<C>::peek_spec(m, INTERRUPT_FLAGS) == m.interrupt_flags | 0xE0,
        DmgBus::<C>::peek_spec(m, INTERRUPT_FLAGS) & 0xE0 == 0xE0,
        DmgBus::<C>::peek_spec(m, INTERRUPT_FLAGS) >= 0xE0,
        DmgBus::<C>::peek_spec(m, INTERRUPT_FLAGS) & 0x1F == m.interrupt_flags & 0x1F,
{
    lemma_unused_flag_bits(m.interrupt_flags);
}

/// Machine cycles touch the timer, the display and the interrupt flags,
/// and nothing else.
pub proof fn lemma_ticks_frame<C: Cartridge>(m: BusState<C::V>, n: nat)
    ensures
        ticks_spec::<DmgBus<C>>(m, n).timer == m.timer.ticks(n),
        ticks_spec::<DmgBus<C>>(m, n) == (BusState {
            timer: ticks_spec::<DmgBus<C>>(m, n).timer,
            interrupt_flags: ticks_spec::<DmgBus<C>>(m, n).interrupt_flags,
            ..m
        }),
    decreases n,
{
    if n > 0 {
        lemma_ticks_frame::<C>(DmgBus::<C>::tick_spec(m), (n - 1) as nat);
    }
}

/// After `n >= 1` machine cycles without a write to the divider, a read
/// of the divider returns bits 8 to 15 of the initial system counter plus
/// `4 * n`.
pub proof fn lemma_div_after_ticks<C: Cartridge>(m: BusState<C::V>, n: nat)
    requires
        n >= 1,
    ensures
        DmgBus::<C>::peek_spec(ticks_spec::<DmgBus<C>>(m, n), DIV) == ((m.timer.sysclock + 4 * n)
            / 256) % 256,
{
    lemma_ticks_frame::<C>(m, n);
    crate::timer::lemma_div_after_ticks(m.timer, n);
}

/// Whether `address` is backed by memory that the bus itself owns: video
/// RAM, work RAM and its echo, object-attribute RAM, or high RAM.
pub open spec fn is_ram_address(address: u16) -> bool {
    VRAM_START <= address < RAM_START || WRAM_START <= address < UNUSED_START || HRAM_START
        <= address < INTERRUPT_ENABLE
}

/// A byte written to video RAM, work RAM, object-attribute RAM or high RAM
/// is the byte that a peek at the same address finds afterwards.
pub proof fn lemma_write_then_peek<C: Cartridge>(m: BusState<C::V>, address: u16, value: u8)
    requires
        m.wf(),
        is_ram_address(address),
    ensures
        DmgBus::<C>::peek_spec(write_spec::<DmgBus<C>>(m, address, value), address) == value,
        write_spec::<DmgBus<C>>(m, address, value).wf(),
{
}

/// A byte written to a cartridge address is the byte that a peek at the
/// same address finds afterwards, where the cartridge in the slot reads
/// back what is written there and the boot ROM does not cover the address.
pub proof fn lemma_write_then_peek_cartridge<C: Cartridge>(
    m: BusState<C::V>,
    address: u16,
    value: u8,
)
    requires
        is_cartridge_address(address),
        !(m.bootrom_enabled && address < BOOT_ROM_SIZE),
        m.cartridge is Some,
        C::read_spec(C::write_spec(m.cartridge->0, address, value), address) == value,
    ensures
        DmgBus::<C>::peek_spec(write_spec::<DmgBus<C>>(m, address, value), address) == value,
{
}

/// A byte written to the RAM of an MBC1 cartridge while that RAM is
/// switched on is the byte that a peek at the same address finds
/// afterwards.
pub proof fn lemma_write_then_peek_mbc1_ram(
    m: BusState<crate::cartridge::Mbc1State>,
    address: u16,
    value: u8,
)
    requires
        RAM_START <= address < RAM_END,
        m.cartridge is Some,
        m.cartridge->0.ram_enabled,
        m.cartridge->0.ram is Some,
        address - RAM_START < m.cartridge->0.ram->0.len(),
    ensures
        DmgBus::<crate::cartridge::Mbc1>::peek_spec(
            write_spec::<DmgBus<crate::cartridge::Mbc1>>(m, address, value),
            address,
        ) == value,
{
    crate::cartridge::lemma_ram_write_then_read(m.cartridge->0, address, value);
    lemma_write_then_peek_cartridge::<crate::cartridge::Mbc1>(m, address, value);
}

/// A machine cycle changes what a peek finds at three addresses only: the
/// divider, the timer counter and the interrupt flags.
pub proof fn lemma_tick_changes<C: Cartridge>(m: BusState<C::V>, address: u16)
    requires
        address != DIV,
        address != TIMA,
        address != INTERRUPT_FLAGS,
    ensures
        DmgBus::<C>::peek_spec(DmgBus::<C>::tick_spec(m), address) == DmgBus::<C>::peek_spec(
            m,
            address,
        ),
{
}

/// A word read returns the two bytes that a peek finds at `address` and
/// after it, where the second of them is none of the three that a machine
/// cycle can change.
pub proof fn lemma_read_word_peeks<C: Cartridge>(m: BusState<C::V>, address: u16)
    requires
        next_address(address) != DIV,
        next_address(address) != TIMA,
        next_address(address) != INTERRUPT_FLAGS,
    ensures
        read_word_spec::<DmgBus<C>>(m, address).0 == DmgBus::<C>::peek_spec(
            m,
            next_address(address),
        ) * 256 + DmgBus::<C>::peek_spec(m, address),
{
    lemma_tick_changes::<C>(m, next_address(address));
}

/// Nothing maps the boot ROM again: after a store or a machine cycle it
/// is mapped only if it was mapped before, and a non-zero store to its
/// port unmaps it.
pub proof fn lemma_boot_rom_stays_off<C: Cartridge>(m: BusState<C::V>, address: u16, value: u8)
    ensures
        DmgBus::<C>::store_spec(m, address, value).bootrom_enabled ==> m.bootrom_enabled,
        DmgBus::<C>::tick_spec(m).bootrom_enabled == m.bootrom_enabled,
        address == BOOT_ROM_DISABLE && value != 0 ==> !DmgBus::<C>::store_spec(
            m,
            address,
            value,
        ).bootrom_enabled,
{
}

/// While the boot ROM is mapped, the first 256 bytes of the address space
/// show the boot ROM and nothing of the cartridge.
pub proof fn lemma_boot_rom_hides_cartridge<C: Cartridge>(
    m: BusState<C::V>,
    cartridge: Option<C::V>,
    address: u16,
)
    requires
        m.bootrom_enabled,
        address < BOOT_ROM_SIZE,
    ensures
        DmgBus::<C>::peek_spec(m, address) == m.bootrom[address as int],
        DmgBus::<C>::peek_spec(BusState { cartridge, ..m }, address) == DmgBus::<C>::peek_spec(
            m,
            address,
        ),
{
}

/// The echo range and work RAM are one memory: a byte written through
/// either is found through both.
pub proof fn lemma_echo_aliases_work_ram<C: Cartridge>(m: BusState<C::V>, offset: u16, value: u8)
    requires
        m.wf(),
        offset < 0x1E00,
    ensures
        DmgBus::<C>::peek_spec(
            write_spec::<DmgBus<C>>(m, (ECHO_START + offset) as u16, value),
            (WRAM_START + offset) as u16,
        ) == value,
        DmgBus::<C>::peek_spec(
            write_spec::<DmgBus<C>>(m, (WRAM_START + offset) as u16, value),
            (ECHO_START + offset) as u16,
        ) == value,
{
}

/// The view of a bus is always well formed.
pub proof fn lemma_bus_view_wf<C: Cartridge>(bus: &DmgBus<C>)
    ensures
        bus@.wf(),
{
}

} // verus!
