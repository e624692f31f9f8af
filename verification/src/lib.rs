//! Decoder for the data-movement subset of a 16-bit instruction set: raw
//! machine-code bytes in, one line of assembly text per instruction out.

pub mod decode;
pub mod encoding;
pub mod error;
pub mod instruction;
pub mod laws;
pub mod layout;
pub mod listing;
pub mod registers;
pub mod render;
pub mod stream;
pub mod text;
