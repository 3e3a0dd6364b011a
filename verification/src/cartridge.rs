use vstd::arithmetic::power2::{lemma2_to64, lemma_pow2_unfold, pow2};
use vstd::prelude::*;

verus! {

/// Offset of the header byte that names the memory-bank controller.
pub const HEADER_MBC: usize = 0x0147;

/// Offset of the header byte that gives the size of the ROM image.
pub const HEADER_ROM_SIZE: usize = 0x0148;

/// Offset of the header byte that gives the size of cartridge RAM.
pub const HEADER_RAM_SIZE: usize = 0x0149;

/// First address of the switchable ROM window.
pub const ROM_BANK_START: u16 = 0x4000;

/// First address past cartridge ROM.
pub const ROM_END: u16 = 0x8000;

/// First address of the cartridge RAM window.
pub const RAM_START: u16 = 0xA000;

/// First address past the cartridge RAM window.
pub const RAM_END: u16 = 0xC000;

/// What an unmapped cartridge address reads as.
pub const OPEN_BUS: u8 = 0xFF;

/// What the bus asks of a cartridge: a byte read and a byte write, each a
/// function of the cartridge's state as its view gives it.
pub trait Cartridge: View {
    /// The byte that a read of `address` returns in state `m`.
    spec fn read_spec(m: Self::V, address: u16) -> u8;

    /// The state that a write of `value` to `address` leaves behind.
    spec fn write_spec(m: Self::V, address: u16, value: u8) -> Self::V;

    /// Reads the byte at `address`.
    #[must_use]
    fn read_byte(&self, address: u16) -> (byte: u8)
        ensures
            byte == Self::read_spec(self@, address),
    ;

    /// Writes `value` to `address`.
    fn write_byte(&mut self, address: u16, value: u8)
        ensures
            final(self)@ == Self::write_spec(old(self)@, address, value),
    ;
}

/// The byte at `index` of a memory, or the open-bus value where the
/// memory ends before it.
pub open spec fn byte_at(memory: Seq<u8>, index: int) -> u8 {
    if 0 <= index < memory.len() {
        memory[index]
    } else {
        OPEN_BUS
    }
}

/// What the RAM window reads as: the byte of `ram` behind `address` where
/// RAM exists and is switched on, the open-bus value otherwise.
pub open spec fn ram_read(ram: Option<Seq<u8>>, enabled: bool, address: u16) -> u8 {
    match ram {
        Some(bytes) if enabled => byte_at(bytes, address - RAM_START),
        _ => OPEN_BUS,
    }
}

fn read_at(memory: &Vec<u8>, index: usize) -> (byte: u8)
    ensures
        byte == byte_at(memory@, index as int),
{
    if index < memory.len() {
        memory[index]
    } else {
        OPEN_BUS
    }
}

fn read_ram(ram: &Option<Vec<u8>>, enabled: bool, address: u16) -> (byte: u8)
    requires
        RAM_START <= address < RAM_END,
    ensures
        byte == ram_read(view_ram(*ram), enabled, address),
{
    match ram {
        Some(bytes) => if enabled {
            read_at(bytes, (address - RAM_START) as usize)
        } else {
            OPEN_BUS
        },
        None => OPEN_BUS,
    }
}

/// The contents of an optional RAM buffer.
pub open spec fn view_ram(ram: Option<Vec<u8>>) -> Option<Seq<u8>> {
    match ram {
        Some(bytes) => Some(bytes@),
        None => None,
    }
}

/// A memory of `n` zero bytes.
pub open spec fn zeros(n: nat) -> Seq<u8> {
    Seq::new(n, |i: int| 0u8)
}

/// Sixty-four KiB of flat, writable memory that answers at every address.
pub struct JsMoo {
    pub ram: [u8; 0x10000],
}

impl View for JsMoo {
    type V = Seq<u8>;

    open spec fn view(&self) -> Seq<u8> {
        self.ram@
    }
}

impl JsMoo {
    /// Flat memory filled with zeros.
    pub fn new() -> (cartridge: JsMoo)
        ensures
            cartridge@ == zeros(0x10000),
    {
        let cartridge = JsMoo { ram: [0u8; 0x10000] };
        assert(cartridge.ram@ =~= zeros(0x10000));
        cartridge
    }
}

impl Cartridge for JsMoo {
    open spec fn read_spec(m: Seq<u8>, address: u16) -> u8 {
        m[address as int]
    }

    open spec fn write_spec(m: Seq<u8>, address: u16, value: u8) -> Seq<u8> {
        m.update(address as int, value)
    }

    fn read_byte(&self, address: u16) -> (byte: u8) {
        self.ram[address as usize]
    }

    fn write_byte(&mut self, address: u16, value: u8) {
        self.ram[address as usize] = value;
    }
}

/// A cartridge without a controller: the first 32 KiB of the image are
/// visible and nothing can be written.
pub struct NoMbc {
    pub rom: Vec<u8>,
    pub ram: Option<Vec<u8>>,
}

/// The state of a cartridge without a controller.
pub struct NoMbcState {
    pub rom: Seq<u8>,
    pub ram: Option<Seq<u8>>,
}

impl View for NoMbc {
    type V = NoMbcState;

    open spec fn view(&self) -> NoMbcState {
        NoMbcState { rom: self.rom@, ram: view_ram(self.ram) }
    }
}

impl Cartridge for NoMbc {
    /// ROM answers below 0x8000. The RAM window reads the RAM that the
    /// header declared, and as open bus without it.
    open spec fn read_spec(m: NoMbcState, address: u16) -> u8 {
        if address < ROM_END {
            byte_at(m.rom, address as int)
        } else if RAM_START <= address < RAM_END {
            ram_read(m.ram, true, address)
        } else {
            OPEN_BUS
        }
    }

    /// Every write is ignored.
    open spec fn write_spec(m: NoMbcState, address: u16, value: u8) -> NoMbcState {
        m
    }

    fn read_byte(&self, address: u16) -> (byte: u8) {
        if address < ROM_END {
            read_at(&self.rom, address as usize)
        } else if RAM_START <= address && address < RAM_END {
            read_ram(&self.ram, true, address)
        } else {
            OPEN_BUS
        }
    }

    fn write_byte(&mut self, address: u16, value: u8) {
    }
}

/// A cartridge with the first kind of bank controller: a five-bit ROM bank
/// register and a latch that switches cartridge RAM on.
pub struct Mbc1 {
    pub rom: Vec<u8>,
    pub ram: Option<Vec<u8>>,
    pub active_bank: u8,
    pub ram_enabled: bool,
}

/// The state of a cartridge with the first kind of bank controller.
pub struct Mbc1State {
    pub rom: Seq<u8>,
    pub ram: Option<Seq<u8>>,
    pub active_bank: u8,
    pub ram_enabled: bool,
}

impl View for Mbc1 {
    type V = Mbc1State;

    open spec fn view(&self) -> Mbc1State {
        Mbc1State {
            rom: self.rom@,
            ram: view_ram(self.ram),
            active_bank: self.active_bank,
            ram_enabled: self.ram_enabled,
        }
    }
}

/// Size of one ROM bank in bytes.
pub const BANK_SIZE: usize = 0x4000;

/// The bank that the switchable window shows for a bank register: banks
/// 0x00, 0x20, 0x40 and 0x60 cannot be selected and show the bank after.
pub open spec fn mapped_bank(register: u8) -> int {
    if register == 0x00 || register == 0x20 || register == 0x40 || register == 0x60 {
        register + 1
    } else {
        register as int
    }
}

/// The offset into the image that the switchable window shows at
/// `address`. Banks past the end of the image wrap around to its start, as
/// the image lacks the address lines that would tell them apart.
pub open spec fn banked_offset(rom_len: nat, register: u8, address: u16) -> int
    recommends
        rom_len > 0,
        ROM_BANK_START <= address < ROM_END,
{
    (mapped_bank(register) * BANK_SIZE + (address - ROM_BANK_START)) % (rom_len as int)
}

/// The value that a write to the bank-select range leaves in the bank
/// register: the low five bits, with 1 in the place of 0.
pub open spec fn selected_bank(value: u8) -> u8 {
    if value % 32 == 0 {
        1
    } else {
        value % 32
    }
}

proof fn lemma_register_bits(value: u8)
    by (bit_vector)
    ensures
        value & 0x1F == value % 32,
        (value & 0x0F == 0x0A) == (value % 16 == 0x0A),
{
}

impl Cartridge for Mbc1 {
    open spec fn read_spec(m: Mbc1State, address: u16) -> u8 {
        if address < ROM_BANK_START {
            byte_at(m.rom, address as int)
        } else if address < ROM_END {
            if m.rom.len() == 0 {
                OPEN_BUS
            } else {
                m.rom[banked_offset(m.rom.len(), m.active_bank, address)]
            }
        } else if RAM_START <= address < RAM_END {
            ram_read(m.ram, m.ram_enabled, address)
        } else {
            OPEN_BUS
        }
    }

    open spec fn write_spec(m: Mbc1State, address: u16, value: u8) -> Mbc1State {
        if address < 0x2000 {
            Mbc1State { ram_enabled: value % 16 == 0x0A, ..m }
        } else if address < ROM_BANK_START {
            Mbc1State { active_bank: selected_bank(value), ..m }
        } else if RAM_START <= address < RAM_END {
            match m.ram {
                Some(bytes) if m.ram_enabled && address - RAM_START < bytes.len() => Mbc1State {
                    ram: Some(bytes.update(address - RAM_START, value)),
                    ..m
                },
                _ => m,
            }
        } else {
            m
        }
    }

    fn read_byte(&self, address: u16) -> (byte: u8) {
        if address < ROM_BANK_START {
            read_at(&self.rom, address as usize)
        } else if address < ROM_END {
            let len = self.rom.len();
            if len == 0 {
                OPEN_BUS
            } else {
                let bank: u64 = match self.active_bank {
                    0x00 | 0x20 | 0x40 | 0x60 => self.active_bank as u64 + 1,
                    _ => self.active_bank as u64,
                };
                let offset = bank * (BANK_SIZE as u64) + (address - ROM_BANK_START) as u64;
                self.rom[(offset % (len as u64)) as usize]
            }
        } else if RAM_START <= address && address < RAM_END {
            read_ram(&self.ram, self.ram_enabled, address)
        } else {
            OPEN_BUS
        }
    }

    fn write_byte(&mut self, address: u16, value: u8) {
        proof {
            lemma_register_bits(value);
        }
        if address < 0x2000 {
            self.ram_enabled = value & 0x0F == 0x0A;
        } else if address < ROM_BANK_START {
            let bank = value & 0x1F;
            self.active_bank = if bank == 0 {
                1
            } else {
                bank
            };
        } else if RAM_START <= address && address < RAM_END {
            let index = (address - RAM_START) as usize;
            if self.ram_enabled {
                match &mut self.ram {
                    Some(bytes) => {
                        if index < bytes.len() {
                            bytes[index] = value;
                        }
                    },
                    None => {},
                }
            }
        }
    }
}

/// Whatever is written to the bank-select range, the switchable window
/// never shows bank 0: a value whose low five bits are zero selects the
/// bank after it.
pub proof fn lemma_bank_zero_never_selected(m: Mbc1State, address: u16, value: u8)
    requires
        0x2000 <= address < ROM_BANK_START,
    ensures
        1 <= mapped_bank(Mbc1::write_spec(m, address, value).active_bank) < 32,
        value % 32 == 0 ==> mapped_bank(Mbc1::write_spec(m, address, value).active_bank) == 1,
        value % 32 != 0 ==> mapped_bank(Mbc1::write_spec(m, address, value).active_bank) == value
            % 32,
{
}

/// No write changes the ROM image, and only a write to the RAM window
/// changes cartridge RAM: it outlives every bank switch.
pub proof fn lemma_rom_is_read_only(m: Mbc1State, address: u16, value: u8)
    ensures
        Mbc1::write_spec(m, address, value).rom == m.rom,
        !(RAM_START <= address < RAM_END) ==> Mbc1::write_spec(m, address, value).ram == m.ram,
        forall|at: u16| at < ROM_BANK_START ==> Mbc1::read_spec(
            Mbc1::write_spec(m, address, value),
            at,
        ) == Mbc1::read_spec(m, at),
{
}

/// A byte written to cartridge RAM while it is switched on is the byte
/// read back from the same address.
pub proof fn lemma_ram_write_then_read(m: Mbc1State, address: u16, value: u8)
    requires
        RAM_START <= address < RAM_END,
        m.ram_enabled,
        m.ram is Some,
        address - RAM_START < m.ram->0.len(),
    ensures
        Mbc1::read_spec(Mbc1::write_spec(m, address, value), address) == value,
{
}

/// The cartridge that a ROM image's header asks for.
pub enum Mbc {
    NoMbc(NoMbc),
    Mbc1(Mbc1),
}

/// The state of a cartridge of either kind.
pub enum MbcState {
    NoMbc(NoMbcState),
    Mbc1(Mbc1State),
}

impl View for Mbc {
    type V = MbcState;

    open spec fn view(&self) -> MbcState {
        match self {
            Mbc::NoMbc(cartridge) => MbcState::NoMbc(cartridge@),
            Mbc::Mbc1(cartridge) => MbcState::Mbc1(cartridge@),
        }
    }
}

impl Cartridge for Mbc {
    open spec fn read_spec(m: MbcState, address: u16) -> u8 {
        match m {
            MbcState::NoMbc(state) => NoMbc::read_spec(state, address),
            MbcState::Mbc1(state) => Mbc1::read_spec(state, address),
        }
    }

    open spec fn write_spec(m: MbcState, address: u16, value: u8) -> MbcState {
        match m {
            MbcState::NoMbc(state) => MbcState::NoMbc(NoMbc::write_spec(state, address, value)),
            MbcState::Mbc1(state) => MbcState::Mbc1(Mbc1::write_spec(state, address, value)),
        }
    }

    fn read_byte(&self, address: u16) -> (byte: u8) {
        match self {
            Mbc::NoMbc(cartridge) => cartridge.read_byte(address),
            Mbc::Mbc1(cartridge) => cartridge.read_byte(address),
        }
    }

    fn write_byte(&mut self, address: u16, value: u8) {
        match self {
            Mbc::NoMbc(cartridge) => cartridge.write_byte(address, value),
            Mbc::Mbc1(cartridge) => cartridge.write_byte(address, value),
        }
    }
}

/// Why a ROM image was turned down.
#[derive(Debug, Clone, Copy, PartialEq, Eq, Structural)]
pub enum RomError {
    /// The image ends before its header does.
    HeaderMissing,
    /// The header's ROM size byte is above 8.
    RomSizeUnknown,
    /// The image is not as long as its header says.
    RomSizeMismatch,
    /// The header's RAM size byte is none of the known ones.
    RamSizeUnknown,
    /// The header names a controller other than none and MBC1.
    MbcUnknown,
}

impl RomError {
    /// The reason in words.
    pub open spec fn reason_spec(self) -> Seq<char> {
        match self {
            RomError::HeaderMissing => "Unable to find the cartridge header"@,
            RomError::RomSizeUnknown => "Unknown ROM size in cartridge header"@,
            RomError::RomSizeMismatch => "ROM size in cartridge header differs from the image's"@,
            RomError::RamSizeUnknown => "Unknown RAM size in cartridge header"@,
            RomError::MbcUnknown => "Unknown MBC in cartridge header"@,
        }
    }

    /// The reason in words.
    pub fn reason(&self) -> (text: &'static str)
        ensures
            text@ == self.reason_spec(),
    {
        match self {
            RomError::HeaderMissing => "Unable to find the cartridge header",
            RomError::RomSizeUnknown => "Unknown ROM size in cartridge header",
            RomError::RomSizeMismatch => "ROM size in cartridge header differs from the image's",
            RomError::RamSizeUnknown => "Unknown RAM size in cartridge header",
            RomError::MbcUnknown => "Unknown MBC in cartridge header",
        }
    }
}

/// The length of an image whose header has `exponent` as its ROM size:
/// 32 KiB doubled that many times.
pub open spec fn rom_size(exponent: u8) -> nat {
    0x8000 * pow2(exponent as nat)
}

/// The bytes of cartridge RAM that a header's RAM size byte declares, or
/// `None` for a byte that declares nothing known.
pub open spec fn ram_size(code: u8) -> Option<nat> {
    if code == 0x00 {
        Some(0)
    } else if code == 0x02 {
        Some(0x2000)
    } else if code == 0x03 {
        Some(0x8000)
    } else if code == 0x04 {
        Some(0x2_0000)
    } else if code == 0x05 {
        Some(0x1_0000)
    } else {
        None
    }
}

/// The RAM a cartridge starts with: zeros of the declared size, or none
/// where the header declares none.
pub open spec fn initial_ram(size: nat) -> Option<Seq<u8>> {
    if size == 0 {
        None
    } else {
        Some(zeros(size))
    }
}

/// The cartridge that an image stands for, or the reason it stands for
/// none. The checks come in this order: the image reaches its header; the
/// ROM size byte is at most 8; the image has the length the byte gives;
/// the RAM size byte is known; the controller byte is known.
pub open spec fn from_rom_spec(rom: Seq<u8>) -> Result<MbcState, RomError> {
    if rom.len() <= HEADER_RAM_SIZE {
        Err(RomError::HeaderMissing)
    } else if rom[HEADER_ROM_SIZE as int] > 8 {
        Err(RomError::RomSizeUnknown)
    } else if rom.len() != rom_size(rom[HEADER_ROM_SIZE as int]) {
        Err(RomError::RomSizeMismatch)
    } else {
        match ram_size(rom[HEADER_RAM_SIZE as int]) {
            None => Err(RomError::RamSizeUnknown),
            Some(size) => if rom[HEADER_MBC as int] == 0x00 {
                Ok(MbcState::NoMbc(NoMbcState { rom, ram: initial_ram(size) }))
            } else if rom[HEADER_MBC as int] == 0x01 {
                Ok(
                    MbcState::Mbc1(
                        Mbc1State {
                            rom,
                            ram: initial_ram(size),
                            active_bank: 1,
                            ram_enabled: false,
                        },
                    ),
                )
            } else {
                Err(RomError::MbcUnknown)
            },
        }
    }
}

fn image_size(exponent: u8) -> (size: usize)
    requires
        exponent <= 8,
    ensures
        size == rom_size(exponent),
{
    let mut size: usize = 0x8000;
    let mut doubled: u8 = 0;
    proof {
        lemma2_to64();
    }
    while doubled < exponent
        invariant
            doubled <= exponent <= 8,
            size == 0x8000 * pow2(doubled as nat),
            size <= 0x8000 * 256,
        decreases exponent - doubled,
    {
        proof {
            lemma2_to64();
            lemma_pow2_unfold((doubled + 1) as nat);
        }
        size = size * 2;
        doubled = doubled + 1;
    }
    size
}

fn zeroed(size: usize) -> (memory: Vec<u8>)
    ensures
        memory@ == zeros(size as nat),
{
    let mut memory: Vec<u8> = Vec::new();
    while memory.len() < size
        invariant
            memory@.len() <= size,
            forall|i: int| 0 <= i < memory@.len() ==> memory@[i] == 0,
        decreases size - memory@.len(),
    {
        memory.push(0);
    }
    assert(memory@ =~= zeros(size as nat));
    memory
}

fn allocate_ram(code: u8) -> (ram: Option<Option<Vec<u8>>>)
    ensures
        match ram_size(code) {
            None => ram is None,
            Some(size) => ram is Some && view_ram(ram->0) == initial_ram(size),
        },
{
    match code {
        0x00 => Some(None),
        0x02 => Some(Some(zeroed(0x2000))),
        0x03 => Some(Some(zeroed(0x8000))),
        0x04 => Some(Some(zeroed(0x2_0000))),
        0x05 => Some(Some(zeroed(0x1_0000))),
        _ => None,
    }
}

/// Builds the cartridge that the header of `rom` describes.
///
/// The image is accepted exactly when `from_rom_spec` accepts it, and is
/// turned down with the same reason otherwise. An accepted image becomes
/// the ROM of the cartridge as it stands; its RAM starts as zeros and its
/// bank register at 1.
pub fn from_rom(rom: Vec<u8>) -> (result: Result<Mbc, RomError>)
    ensures
        match (result, from_rom_spec(rom@)) {
            (Ok(cartridge), Ok(state)) => cartridge@ == state,
            (Err(error), Err(expected)) => error == expected,
            _ => false,
        },
{
    if rom.len() <= HEADER_RAM_SIZE {
        return Err(RomError::HeaderMissing);
    }
    let exponent = rom[HEADER_ROM_SIZE];
    if exponent > 8 {
        return Err(RomError::RomSizeUnknown);
    }
    if rom.len() != image_size(exponent) {
        return Err(RomError::RomSizeMismatch);
    }
    let ram = match allocate_ram(rom[HEADER_RAM_SIZE]) {
        Some(ram) => ram,
        None => {
            return Err(RomError::RamSizeUnknown);
        },
    };
    let mbc = rom[HEADER_MBC];
    if mbc == 0x00 {
        Ok(Mbc::NoMbc(NoMbc { rom, ram }))
    } else if mbc == 0x01 {
        Ok(Mbc::Mbc1(Mbc1 { rom, ram, active_bank: 1, ram_enabled: false }))
    } else {
        Err(RomError::MbcUnknown)
    }
}

} // verus!
