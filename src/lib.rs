//! A CHIP-8 interpreter core: instruction decoding, machine state and the
//! execution of one instruction per cycle, with every step proved against a
//! mathematical model of the machine.

pub mod keypad;
pub mod laws;
pub mod machine;
pub mod opcode;
pub mod processor;
pub mod stack;
pub mod timing;
