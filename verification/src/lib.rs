//! Extraction of supervised-learning examples from a chess engine's
//! self-play training archive.
//!
//! Each archive entry is a gzip stream holding a concatenation of
//! fixed-size binary records, one per position. The library decodes
//! the records ([`record`]), corrects the bit order of their bitboards
//! ([`bits`]), reconstructs the position and infers the castling-rook
//! masks from the first record of each game ([`board`]), and filters
//! and emits training examples ([`pipeline`]). Archive traversal and
//! the move-notation table are the caller's concern: the pipeline
//! takes plain bytes and a table of notations, and hands back plain
//! values.

pub mod bits;
pub mod board;
pub mod pipeline;
pub mod record;
