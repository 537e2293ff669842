//! Frame pacing: the decisions of the real-time loop. The caller runs the
//! loop, measures wall-clock time and sleeps; this module says when a frame
//! boundary is reached and how long to block there.
use vstd::prelude::*;

verus! {

/// Cycles in one frame: a 4.194304 MHz clock at about 59.7 frames a second.
pub const FRAME_CYCLES: u64 = 70224;

/// Target duration of one frame in nanoseconds: 1/59.7 s, rounded.
pub const FRAME_NANOS: u64 = 16_750_419;

/// Frames completed and cycles carried after adding `cycles` to a carry.
pub open spec fn frames_after(carry: nat, cycles: nat) -> nat {
    (carry + cycles) / (FRAME_CYCLES as nat)
}

pub open spec fn carry_after(carry: nat, cycles: nat) -> nat {
    (carry + cycles) % (FRAME_CYCLES as nat)
}

/// How long to block at a frame boundary, given the time since the last one.
pub open spec fn delay_spec(elapsed_nanos: u64, frame_nanos: u64) -> u64 {
    if elapsed_nanos < frame_nanos {
        (frame_nanos - elapsed_nanos) as u64
    } else {
        0
    }
}

/// Frames completed and the carry left after feeding a run of step costs,
/// one at a time, to a pacer that starts with `carry`.
pub open spec fn pace_run(carry: nat, costs: Seq<u64>) -> (nat, nat)
    decreases costs.len(),
{
    if costs.len() == 0 {
        (0, carry)
    } else {
        let (frames, rest) = pace_run(carry, costs.drop_last());
        (frames + frames_after(rest, costs.last() as nat), carry_after(rest, costs.last() as nat))
    }
}

/// Sum of a run of step costs.
pub open spec fn total_cycles(costs: Seq<u64>) -> nat
    decreases costs.len(),
{
    if costs.len() == 0 {
        0
    } else {
        total_cycles(costs.drop_last()) + costs.last() as nat
    }
}

/// Over any run of steps the carried remainder stays below one frame, and
/// no cycle is lost or invented: whole frames plus the carry account for
/// every cycle run.
pub proof fn lemma_pacing_conserves_cycles(carry: nat, costs: Seq<u64>)
    requires
        carry < FRAME_CYCLES,
    ensures
        pace_run(carry, costs).1 < FRAME_CYCLES,
        pace_run(carry, costs).0 * FRAME_CYCLES + pace_run(carry, costs).1 == carry + total_cycles(
            costs,
        ),
    decreases costs.len(),
{
    if costs.len() > 0 {
        lemma_pacing_conserves_cycles(carry, costs.drop_last());
        let (frames, rest) = pace_run(carry, costs.drop_last());
        let n = rest + costs.last() as nat;
        let f = FRAME_CYCLES as int;
        vstd::arithmetic::div_mod::lemma_fundamental_div_mod(n as int, f);
        vstd::arithmetic::mul::lemma_mul_is_distributive_add_other_way(
            f,
            frames as int,
            (n / (f as nat)) as int,
        );
    }
}

/// How long a frame lasts once paced: its own running time, raised to the
/// target when it ran short.
pub open spec fn paced_length(elapsed_nanos: u64) -> nat {
    elapsed_nanos as nat + delay_spec(elapsed_nanos, FRAME_NANOS) as nat
}

/// By how much a frame's own running time exceeded the target.
pub open spec fn overrun(elapsed_nanos: u64) -> nat {
    if elapsed_nanos > FRAME_NANOS {
        (elapsed_nanos - FRAME_NANOS) as nat
    } else {
        0
    }
}

pub open spec fn paced_total(elapsed: Seq<u64>) -> nat
    decreases elapsed.len(),
{
    if elapsed.len() == 0 {
        0
    } else {
        paced_total(elapsed.drop_last()) + paced_length(elapsed.last())
    }
}

pub open spec fn overrun_total(elapsed: Seq<u64>) -> nat
    decreases elapsed.len(),
{
    if elapsed.len() == 0 {
        0
    } else {
        overrun_total(elapsed.drop_last()) + overrun(elapsed.last())
    }
}

/// Paced frames do not drift: N frames last exactly N target durations,
/// plus only the time by which frames themselves ran over the target.
pub proof fn lemma_paced_frames(elapsed: Seq<u64>)
    ensures
        paced_total(elapsed) == elapsed.len() * FRAME_NANOS + overrun_total(elapsed),
        paced_total(elapsed) >= elapsed.len() * FRAME_NANOS,
    decreases elapsed.len(),
{
    if elapsed.len() > 0 {
        lemma_paced_frames(elapsed.drop_last());
        vstd::arithmetic::mul::lemma_mul_is_distributive_add_other_way(
            FRAME_NANOS as int,
            (elapsed.len() - 1) as int,
            1,
        );
    }
}

/// Accumulates the cycles of executed instructions into frames, carrying
/// the remainder forward.
pub struct FramePacer {
    cycles_run_during_frame: u64,
}

impl FramePacer {
    /// Cycles run since the last frame boundary.
    pub closed spec fn carry(&self) -> u64 {
        self.cycles_run_during_frame
    }

    pub open spec fn wf(&self) -> bool {
        self.carry() < FRAME_CYCLES
    }

    pub fn new() -> (r: FramePacer)
        ensures
            r.wf(),
            r.carry() == 0,
    {
        FramePacer { cycles_run_during_frame: 0 }
    }

    /// Adds the cycles of one step and returns how many frame boundaries
    /// were crossed; the remainder stays for the next frame.
    pub fn add_cycles(&mut self, cycles: u64) -> (frames: u64)
        requires
            old(self).wf(),
        ensures
            final(self).wf(),
            frames == frames_after(old(self).carry() as nat, cycles as nat),
            final(self).carry() == carry_after(old(self).carry() as nat, cycles as nat),
    {
        let whole = cycles / FRAME_CYCLES;
        let rest = cycles % FRAME_CYCLES;
        let sum = self.cycles_run_during_frame + rest;
        let frames: u64;
        if sum >= FRAME_CYCLES {
            self.cycles_run_during_frame = sum - FRAME_CYCLES;
            frames = whole + 1;
        } else {
            self.cycles_run_during_frame = sum;
            frames = whole;
        }
        proof {
            let f = FRAME_CYCLES as int;
            let c = old(self).carry() as int;
            let n = cycles as int;
            vstd::arithmetic::div_mod::lemma_fundamental_div_mod(n, f);
            vstd::arithmetic::div_mod::lemma_fundamental_div_mod_converse(
                c + n,
                f,
                frames as int,
                self.cycles_run_during_frame as int,
            );
        }
        frames
    }

    /// How long to block at a frame boundary: what is left of the frame's
    /// target duration, or nothing when the frame already took as long.
    pub fn frame_delay(elapsed_nanos: u64) -> (r: u64)
        ensures
            r == delay_spec(elapsed_nanos, FRAME_NANOS),
    {
        if elapsed_nanos < FRAME_NANOS {
            FRAME_NANOS - elapsed_nanos
        } else {
            0
        }
    }
}

} // verus!
