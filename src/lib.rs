//! Motorola 68000-family instruction-encoding matcher, with a small reader
//! for Mega Drive ROM images.
pub mod arch;
pub mod opcode;
pub mod matcher;
pub mod table;
pub mod rom_fmt;
pub mod rom;
