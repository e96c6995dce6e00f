//! An emulator core for a 6502/65C02 computer: instruction decoding,
//! addressing-mode resolution, instruction execution, a memory bus with
//! memory-mapped peripherals, and the message surface used by a front end.

pub mod alu;
pub mod card;
pub mod cf;
pub mod decode;
pub mod empty;
pub mod host;
pub mod isa;
pub mod timer;
pub mod computer;
