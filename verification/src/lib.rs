//! A fixed-width binary header codec: a batch of game metadata (play mode,
//! time-control speed class, and a count of games) packed into a single byte.
//!
//! Bit layout (bit 0 is the least significant):
//! - bit 0: mode (1 = rated, 0 = casual)
//! - bits 1-3: speed class (0-5; 6 and 7 are invalid encodings)
//! - bits 4-7: number of games (0-15)

pub mod header;
pub mod model;
