//! Fetch-decode-execute core of a handheld console's processor, with its
//! register file, memory bus, opcode tables and frame pacing.
pub mod cpu;
pub mod dispatch;
pub mod pacer;
pub mod ppu;
