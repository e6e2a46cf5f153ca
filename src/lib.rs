//! A cycle-stepped MOS 6502 interpreter as used by the NES, with its memory,
//! bus and cartridge loader.
pub mod nes;
