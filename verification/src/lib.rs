//! A verified codec for the chunk-based container structure used by PNG:
//! validated 4-byte type codes, length-prefixed checksummed records, and a
//! streaming decoder that latches on the first corrupt record.

pub mod checksum;
pub mod chunk;
pub mod chunk_type;
pub mod text;
pub mod wire;
