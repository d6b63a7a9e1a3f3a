//! Decoder and encoder for the ELF (Executable and Linkable Format) binary
//! container: the 16-byte identification block, the file header, and the
//! program-header and section-header tables, in both the 32-bit and 64-bit
//! layouts and both byte orders.
//!
//! Every decoder works on an in-memory byte buffer, rejects malformed or
//! truncated input with a structured error, and is specified down to the
//! byte against the on-disk layout.

pub mod cursor;
pub mod elf;
pub mod error;
pub mod file_header;
pub mod ident;
pub mod machine;
pub mod program_header;
pub mod section_header;
