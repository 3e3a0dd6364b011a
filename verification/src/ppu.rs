use crate::interrupts::Interrupt;
use vstd::prelude::*;

verus! {

/// Size of video RAM in bytes.
pub const VRAM_SIZE: usize = 0x2000;

/// Size of object-attribute RAM in bytes.
pub const OAM_SIZE: usize = 0xA0;

/// The display unit, as far as the bus needs it: the memories it owns, the
/// vertical scroll register, and a clock input.
pub struct Ppu {
    pub vram: [u8; 0x2000],
    pub oam: [u8; 0xA0],
    pub scy: u8,
}

/// The display unit's state as mathematical values.
pub struct PpuState {
    pub vram: Seq<u8>,
    pub oam: Seq<u8>,
    pub scy: u8,
}

impl View for Ppu {
    type V = PpuState;

    open spec fn view(&self) -> PpuState {
        PpuState { vram: self.vram@, oam: self.oam@, scy: self.scy }
    }
}

impl PpuState {
    /// Both memories have their hardware sizes.
    pub open spec fn wf(self) -> bool {
        self.vram.len() == VRAM_SIZE && self.oam.len() == OAM_SIZE
    }

    /// The display after one machine cycle, and the interrupt it raises.
    /// No picture is produced, so a cycle changes nothing and raises
    /// nothing.
    pub open spec fn tick_spec(self) -> (PpuState, Option<Interrupt>) {
        (self, None)
    }
}

impl Default for Ppu {
    fn default() -> (ppu: Ppu)
        ensures
            ppu@ == (PpuState {
                vram: Seq::new(VRAM_SIZE as nat, |i: int| 0u8),
                oam: Seq::new(OAM_SIZE as nat, |i: int| 0u8),
                scy: 0,
            }),
    {
        let ppu = Ppu { vram: [0u8; 0x2000], oam: [0u8; 0xA0], scy: 0 };
        assert(ppu.vram@ =~= Seq::new(VRAM_SIZE as nat, |i: int| 0u8));
        assert(ppu.oam@ =~= Seq::new(OAM_SIZE as nat, |i: int| 0u8));
        ppu
    }
}

impl Ppu {
    /// Advances the display by one machine cycle and reports the interrupt
    /// that the cycle raised, if any.
    pub fn tick(&mut self) -> (irq: Option<Interrupt>)
        ensures
            final(self)@ == old(self)@.tick_spec().0,
            irq == old(self)@.tick_spec().1,
    {
        None
    }
}

/// The view of a display unit is always well formed.
pub proof fn lemma_ppu_view_wf(ppu: &Ppu)
    ensures
        ppu@.wf(),
{
}

} // verus!
