//! A small x86-64 assembler: it scans assembly text line by line, encodes a
//! handful of instructions and data directives into section buffers, and lays
//! the result out as a COFF object file.

pub mod assembler;
pub mod lex;
pub mod parser;
