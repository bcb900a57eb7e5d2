//! A method-at-a-time native code translator for a stack-based byte-code.
//!
//! The library decodes a byte-code stream, maps every instruction to a
//! fixed-width block of x86-64 machine code and reports "not compiled"
//! whenever an instruction outside the supported subset appears.
pub mod adapters;
pub mod buffer;
pub mod decode;
pub mod disasm;
pub mod emit;
pub mod key;
pub mod opcode;
pub mod translate;
