//! An interpreter core for an 8-bit (Z80-class) CPU: a register file with
//! correct aliasing between 8-bit and 16-bit views, a bit-field opcode
//! decomposer, a total instruction decoder over the one-byte base tables,
//! and a fetch/decode/execute cycle that advances the program counter over
//! variable-length instructions.

pub mod cpu;
pub mod decode;
pub mod registers;
