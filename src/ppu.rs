//! The video subsystem's boundary: it consumes the cycles of each frame.
use vstd::prelude::*;

verus! {

/// Cycles in one scan line.
pub const CYCLES_PER_LINE: u16 = 456;

pub struct Ppu {
    cycles_run_during_line: u16,
}

impl Ppu {
    /// Cycles run into the current scan line.
    pub closed spec fn line_cycles(&self) -> u16 {
        self.cycles_run_during_line
    }

    pub fn new() -> (r: Ppu)
        ensures
            r.line_cycles() == 0,
    {
        Ppu { cycles_run_during_line: 0 }
    }

    /// Cycles run into the current scan line.
    pub fn position(&self) -> (r: u16)
        ensures
            r == self.line_cycles(),
    {
        self.cycles_run_during_line
    }

    /// Consumes the cycles handed over at a frame boundary, keeping the
    /// position within the current scan line.
    pub fn advance(&mut self, cycles: u64)
        ensures
            final(self).line_cycles() < CYCLES_PER_LINE,
            final(self).line_cycles() == (old(self).line_cycles() as nat + cycles as nat) % (
            CYCLES_PER_LINE as nat),
    {
        let line = CYCLES_PER_LINE as u64;
        let position = (self.cycles_run_during_line as u64 + cycles % line) % line;
        proof {
            vstd::arithmetic::div_mod::lemma_add_mod_noop_right(
                old(self).line_cycles() as int,
                cycles as int,
                line as int,
            );
        }
        self.cycles_run_during_line = position as u16;
    }
}

} // verus!
