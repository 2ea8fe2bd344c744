//! Decoder for the structural header portion of the GIF87a/GIF89a container
//! format: signature, logical screen descriptor, optional global color table,
//! and one image descriptor group, read from an in-memory byte sequence.

pub mod error;
pub mod gif;
pub mod parser;
