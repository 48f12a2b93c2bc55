//! A toolchain for the "smol" 8/16-bit instruction set: an assembler,
//! an object-file codec, and a virtual machine, with their core logic
//! specified and verified.

pub mod ast;
pub mod compiler;
pub mod isa;
pub mod object_file;
pub mod registers;
pub mod stack;
pub mod syscall;
pub mod vm;
