//! A line-oriented assembler for a small fixed-format instruction set.
//!
//! Source text is processed line by line: each line is tokenized, its
//! mnemonic is looked up in the instruction table, operands are resolved
//! (registers to digit characters, immediates to two lowercase hex digits),
//! and the command's machine-word template is filled in. Successful lines
//! contribute an output record holding the encoded word and the original
//! line; failing lines contribute nothing and the pass continues.
//!
//! The library works on bytes (`Vec<u8>` / `&[u8]`): input is the raw text
//! of the source, output is the raw byte buffer of the encoded records.
//!
//! Canonical choices, fixed here once for the whole crate: the opcode
//! templates are the `0x`-prefixed words of [`commands::spec_template`];
//! immediates are rendered as two lowercase hexadecimal digits; and each
//! output record is the encoded word, a `" ; "` separator, the original
//! source line verbatim, and a `"\r\n"` terminator.

pub mod ascii;
pub mod commands;
pub mod encoder;
pub mod errors;
pub mod pipeline;
pub mod registers;
