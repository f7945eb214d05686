//! DCA1 containers: a magic tag, a JSON header block and length-prefixed
//! Opus frames, built from the packets of an Ogg stream.

pub mod convert;
pub mod dca;
pub mod error;
pub mod extractor;
pub mod header;
pub mod json;
pub mod layout;
pub mod metadata;
pub mod reader;
