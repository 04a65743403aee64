//! An Intel 8080 emulator core: an instruction interpreter over an
//! architectural state vector (registers, flags, 64 KiB of memory), together
//! with a linear disassembler for 8080 machine code.
//!
//! The interpreter executes one instruction per `emulate_cycle` call and is
//! specified against a mathematical model of the architectural state: every
//! step is proved equal to a single spec-level transition function.

pub mod disassembler;
pub mod flags;
pub mod isa;
pub mod laws;
pub mod model;
pub mod state;
pub mod step;
