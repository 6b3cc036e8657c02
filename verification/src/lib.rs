//! A toolkit for analysing NES cartridge ROM images: iNES header parsing,
//! CHR tile graphics extraction, straight-line 6502 disassembly, Game Genie
//! code encoding and decoding, and the console's pseudo-random sequence.
//! Each engine is a pure transform from bytes or scalars to one artifact;
//! reading inputs and writing artifacts out is the caller's business.

pub mod chr;
pub mod disasm;
pub mod engine;
pub mod errors;
pub mod game_genie;
pub mod header;
pub mod prng;
