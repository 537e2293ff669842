use gbcore::pacer::{FramePacer, FRAME_CYCLES, FRAME_NANOS};
use gbcore::ppu::Ppu;

#[test]
fn no_frame_below_threshold() {
    let mut p = FramePacer::new();
    assert_eq!(p.add_cycles(FRAME_CYCLES - 4), 0);
    assert_eq!(p.add_cycles(3), 0);
}

#[test]
fn remainder_is_carried() {
    let mut p = FramePacer::new();
    assert_eq!(p.add_cycles(FRAME_CYCLES - 2), 0);
    assert_eq!(p.add_cycles(4), 1);
    // 2 cycles were carried; the next boundary comes FRAME_CYCLES - 2 later
    assert_eq!(p.add_cycles(FRAME_CYCLES - 3), 0);
    assert_eq!(p.add_cycles(1), 1);
}

#[test]
fn many_frames_keep_exact_count() {
    let mut p = FramePacer::new();
    let mut frames: u64 = 0;
    let steps: u64 = 3 * FRAME_CYCLES / 4 + 5;
    for _ in 0..steps {
        frames += p.add_cycles(4);
    }
    // 4 * steps = 3 frames plus 20 cycles
    assert_eq!(frames, 3);
    assert_eq!(p.add_cycles(FRAME_CYCLES - 20 - 1), 0);
    assert_eq!(p.add_cycles(1), 1);
}

#[test]
fn large_step_crosses_several_frames() {
    let mut p = FramePacer::new();
    assert_eq!(p.add_cycles(10), 0);
    assert_eq!(p.add_cycles(2 * FRAME_CYCLES + FRAME_CYCLES - 10), 3);
    assert_eq!(p.add_cycles(FRAME_CYCLES - 1), 0);
    assert_eq!(p.add_cycles(u64::MAX), (u64::MAX - 1) / FRAME_CYCLES + 1);
}

#[test]
fn frame_delay_fills_the_frame() {
    assert_eq!(FramePacer::frame_delay(0), FRAME_NANOS);
    assert_eq!(FramePacer::frame_delay(750_419), 16_000_000);
    assert_eq!(FramePacer::frame_delay(FRAME_NANOS), 0);
    assert_eq!(FramePacer::frame_delay(FRAME_NANOS + 1), 0);
    let frames: u64 = 100;
    let total: u64 = (0..frames).map(|i| (i * 1000) + FramePacer::frame_delay(i * 1000)).sum();
    assert_eq!(total, frames * FRAME_NANOS);
}

#[test]
fn frame_constants() {
    assert_eq!(FRAME_CYCLES, 70224);
    assert_eq!(FRAME_NANOS, 16_750_419);
}

#[test]
fn ppu_keeps_line_position() {
    let mut ppu = Ppu::new();
    assert_eq!(ppu.position(), 0);
    ppu.advance(FRAME_CYCLES);
    // 70224 = 154 lines of 456 cycles
    assert_eq!(ppu.position(), 0);
    ppu.advance(100);
    assert_eq!(ppu.position(), 100);
    ppu.advance(400);
    assert_eq!(ppu.position(), 44);
    ppu.advance(u64::MAX);
    assert_eq!(ppu.position() as u64, (44 + u64::MAX % 456) % 456);
}
