//! The fixed-layout binary record of one training position.
//!
//! A record is 8356 bytes, positional, little-endian. The layout is:
//! format version (`u32`, must be 6), input format (`u32`), 1858 policy
//! probabilities (4 bytes each, skipped), 104 bitboard planes (`u64`
//! each, of which the first 12 carry the position), 4 castling flag
//! bytes, side-to-move byte, rule-50 counter, invariance byte, one
//! reserved byte, 15 value/draw/moves-left statistics (4 bytes each),
//! visit count (`u32`), played move index (`u16`), best move index
//! (`u16`), policy divergence (4 bytes) and a reserved tail (`u32`).
//!
//! Every bitboard is run through the bit-order correction of
//! [`crate::bits::reverse_bits_in_bytes`] at decode time, before any
//! consumer sees it.

use vstd::prelude::*;
use crate::bits::{reverse_bits_in_bytes, spec_reverse_bits_in_bytes};

verus! {

/// Total size of one record in bytes.
pub const RECORD_SIZE: usize = 8356;

/// The only supported value of the leading format-version field.
pub const FORMAT_VERSION: u32 = 6;

/// Number of bitboard planes that carry the position: one per
/// (side, piece type) pair, own side first.
pub const NUM_PLANES: usize = 12;

/// Byte offset of the input-format field.
pub const INPUT_FORMAT_OFFSET: usize = 4;

/// Byte offset of the first bitboard plane.
pub const PLANES_OFFSET: usize = 7440;

/// Byte offset of the four raw castling flag bytes.
pub const CASTLING_OFFSET: usize = 8272;

/// Byte offset of the side-to-move (or en-passant) byte.
pub const SIDE_TO_MOVE_OFFSET: usize = 8276;

/// Byte offset of the rule-50 counter byte.
pub const RULE50_OFFSET: usize = 8277;

/// Byte offset of the best-value statistic.
pub const BEST_Q_OFFSET: usize = 8284;

/// Byte offset of the best-draw-probability statistic.
pub const BEST_D_OFFSET: usize = 8292;

/// Byte offset of the best-move index.
pub const BEST_IDX_OFFSET: usize = 8346;

/// The little-endian 16-bit value at offset `off` of `s`.
pub open spec fn le16(s: Seq<u8>, off: int) -> u16 {
    (s[off] + s[off + 1] * 0x100) as u16
}

/// The little-endian 32-bit value at offset `off` of `s`.
pub open spec fn le32(s: Seq<u8>, off: int) -> u32 {
    (s[off] + s[off + 1] * 0x100 + s[off + 2] * 0x10000 + s[off + 3] * 0x1000000) as u32
}

/// The little-endian 64-bit value at offset `off` of `s`.
pub open spec fn le64(s: Seq<u8>, off: int) -> u64 {
    (s[off] + s[off + 1] * 0x100 + s[off + 2] * 0x10000 + s[off + 3] * 0x1000000
        + s[off + 4] * 0x100000000 + s[off + 5] * 0x10000000000
        + s[off + 6] * 0x1000000000000 + s[off + 7] * 0x100000000000000) as u64
}

/// Reads the little-endian 16-bit value at `off`.
fn read_u16_le(b: &Vec<u8>, off: usize) -> (r: u16)
    requires
        off + 2 <= b.len(),
    ensures
        r == le16(b@, off as int),
{
    let b0 = b[off] as u16;
    let b1 = b[off + 1] as u16;
    proof {
        assert(b0 | (b1 << 8u16) == (b0 + b1 * 0x100) as u16) by (bit_vector)
            requires
                b0 < 0x100 && b1 < 0x100,
        ;
    }
    b0 | (b1 << 8)
}

/// Reads the little-endian 32-bit value at `off`.
fn read_u32_le(b: &Vec<u8>, off: usize) -> (r: u32)
    requires
        off + 4 <= b.len(),
    ensures
        r == le32(b@, off as int),
{
    let b0 = b[off] as u32;
    let b1 = b[off + 1] as u32;
    let b2 = b[off + 2] as u32;
    let b3 = b[off + 3] as u32;
    proof {
        assert(b0 | (b1 << 8u32) | (b2 << 16u32) | (b3 << 24u32)
            == (b0 + b1 * 0x100 + b2 * 0x10000 + b3 * 0x1000000) as u32) by (bit_vector)
            requires
                b0 < 0x100 && b1 < 0x100 && b2 < 0x100 && b3 < 0x100,
        ;
    }
    b0 | (b1 << 8) | (b2 << 16) | (b3 << 24)
}

/// Reads the little-endian 64-bit value at `off`.
fn read_u64_le(b: &Vec<u8>, off: usize) -> (r: u64)
    requires
        off + 8 <= b.len(),
    ensures
        r == le64(b@, off as int),
{
    let b0 = b[off] as u64;
    let b1 = b[off + 1] as u64;
    let b2 = b[off + 2] as u64;
    let b3 = b[off + 3] as u64;
    let b4 = b[off + 4] as u64;
    let b5 = b[off + 5] as u64;
    let b6 = b[off + 6] as u64;
    let b7 = b[off + 7] as u64;
    proof {
        assert(b0 | (b1 << 8u64) | (b2 << 16u64) | (b3 << 24u64) | (b4 << 32u64) | (b5 << 40u64)
            | (b6 << 48u64) | (b7 << 56u64)
            == (b0 + b1 * 0x100 + b2 * 0x10000 + b3 * 0x1000000 + b4 * 0x100000000
                + b5 * 0x10000000000 + b6 * 0x1000000000000
                + b7 * 0x100000000000000) as u64) by (bit_vector)
            requires
                b0 < 0x100 && b1 < 0x100 && b2 < 0x100 && b3 < 0x100 && b4 < 0x100 && b5 < 0x100
                    && b6 < 0x100 && b7 < 0x100,
        ;
    }
    b0 | (b1 << 8) | (b2 << 16) | (b3 << 24) | (b4 << 32) | (b5 << 40) | (b6 << 48) | (b7 << 56)
}

/// Why a record could not be decoded.
#[derive(Clone, Copy, Debug, PartialEq, Eq, Structural)]
pub enum DecodeError {
    /// Fewer bytes remained than one full record requires.
    TruncatedRecord,
    /// The format-version field differed from [`FORMAT_VERSION`]; the
    /// remaining bytes cannot be trusted to follow the assumed layout.
    VersionMismatch,
}

/// One decoded training record.
///
/// The 12 bitboards are already bit-order corrected. The two value
/// statistics are kept as the raw little-endian bit patterns of their
/// 4-byte fields, to be reinterpreted by the consumer.
#[derive(Debug)]
pub struct TrainingSample {
    /// Corrected bitboards: planes 0-5 are the own side's pawns,
    /// knights, bishops, rooks, queens, king; planes 6-11 the
    /// opponent's, in the same order.
    pub bitboards: Vec<u64>,
    /// Opaque input-format tag, passed through unused.
    pub input_format: u32,
    /// Raw engine flag: own queenside castling.
    pub castling_us_ooo: bool,
    /// Raw engine flag: own kingside castling.
    pub castling_us_oo: bool,
    /// Raw engine flag: opponent queenside castling.
    pub castling_them_ooo: bool,
    /// Raw engine flag: opponent kingside castling.
    pub castling_them_oo: bool,
    /// Side to move, or the en-passant file, depending on the input format.
    pub side_to_move_or_enpassant: u8,
    /// Halfmove counter towards the 50-move rule.
    pub rule50_count: u8,
    /// Bit pattern of the best-value statistic.
    pub best_q_bits: u32,
    /// Bit pattern of the best-draw-probability statistic.
    pub best_d_bits: u32,
    /// Index of the best move in the policy head.
    pub best_idx: u16,
}

/// The corrected bitboard of plane `k` of the record at offset `off`.
pub open spec fn plane_at(s: Seq<u8>, off: int, k: int) -> u64 {
    spec_reverse_bits_in_bytes(le64(s, off + PLANES_OFFSET + 8 * k))
}

/// `t` holds exactly the retained fields of the record at offset `off` of `s`.
pub open spec fn sample_matches(t: TrainingSample, s: Seq<u8>, off: int) -> bool {
    &&& t.bitboards.len() == NUM_PLANES
    &&& forall|k: int| 0 <= k < NUM_PLANES ==> t.bitboards[k] == #[trigger] plane_at(s, off, k)
    &&& t.input_format == le32(s, off + INPUT_FORMAT_OFFSET)
    &&& t.castling_us_ooo == (s[off + CASTLING_OFFSET] != 0)
    &&& t.castling_us_oo == (s[off + CASTLING_OFFSET + 1] != 0)
    &&& t.castling_them_ooo == (s[off + CASTLING_OFFSET + 2] != 0)
    &&& t.castling_them_oo == (s[off + CASTLING_OFFSET + 3] != 0)
    &&& t.side_to_move_or_enpassant == s[off + SIDE_TO_MOVE_OFFSET]
    &&& t.rule50_count == s[off + RULE50_OFFSET]
    &&& t.best_q_bits == le32(s, off + BEST_Q_OFFSET)
    &&& t.best_d_bits == le32(s, off + BEST_D_OFFSET)
    &&& t.best_idx == le16(s, off + BEST_IDX_OFFSET)
}

impl TrainingSample {
    /// The decoded record carries its full complement of bitboard planes.
    pub open spec fn wf(&self) -> bool {
        self.bitboards.len() == NUM_PLANES
    }

    /// Decodes the record at offset `off` of `bytes`.
    ///
    /// Fails with [`DecodeError::TruncatedRecord`] when fewer than
    /// [`RECORD_SIZE`] bytes remain, and with
    /// [`DecodeError::VersionMismatch`] when the leading version field
    /// is not [`FORMAT_VERSION`]; no later field is read in that case.
    pub fn read_from(bytes: &Vec<u8>, off: usize) -> (r: Result<TrainingSample, DecodeError>)
        ensures
            r is Ok <==> off + RECORD_SIZE <= bytes.len() && le32(bytes@, off as int)
                == FORMAT_VERSION,
            r matches Ok(t) ==> t.wf() && sample_matches(t, bytes@, off as int),
            r matches Err(e) ==> ((e == DecodeError::TruncatedRecord) <==> off + RECORD_SIZE
                > bytes.len()),
            r matches Err(e) ==> ((e == DecodeError::VersionMismatch) <==> off + RECORD_SIZE
                <= bytes.len() && le32(bytes@, off as int) != FORMAT_VERSION),
    {
        if bytes.len() < RECORD_SIZE || off > bytes.len() - RECORD_SIZE {
            return Err(DecodeError::TruncatedRecord);
        }
        let version = read_u32_le(bytes, off);
        if version != FORMAT_VERSION {
            return Err(DecodeError::VersionMismatch);
        }
        let input_format = read_u32_le(bytes, off + INPUT_FORMAT_OFFSET);
        let mut bitboards: Vec<u64> = Vec::new();
        let mut k: usize = 0;
        while k < NUM_PLANES
            invariant
                k <= NUM_PLANES,
                bitboards.len() == k,
                off + RECORD_SIZE <= bytes.len(),
                forall|j: int| 0 <= j < k ==> bitboards[j] == #[trigger] plane_at(
                    bytes@,
                    off as int,
                    j,
                ),
            decreases NUM_PLANES - k,
        {
            let raw = read_u64_le(bytes, off + PLANES_OFFSET + 8 * k);
            bitboards.push(reverse_bits_in_bytes(raw));
            k = k + 1;
        }
        let castling_us_ooo = bytes[off + CASTLING_OFFSET] != 0;
        let castling_us_oo = bytes[off + CASTLING_OFFSET + 1] != 0;
        let castling_them_ooo = bytes[off + CASTLING_OFFSET + 2] != 0;
        let castling_them_oo = bytes[off + CASTLING_OFFSET + 3] != 0;
        let side_to_move_or_enpassant = bytes[off + SIDE_TO_MOVE_OFFSET];
        let rule50_count = bytes[off + RULE50_OFFSET];
        let best_q_bits = read_u32_le(bytes, off + BEST_Q_OFFSET);
        let best_d_bits = read_u32_le(bytes, off + BEST_D_OFFSET);
        let best_idx = read_u16_le(bytes, off + BEST_IDX_OFFSET);
        Ok(TrainingSample {
            bitboards,
            input_format,
            castling_us_ooo,
            castling_us_oo,
            castling_them_ooo,
            castling_them_oo,
            side_to_move_or_enpassant,
            rule50_count,
            best_q_bits,
            best_d_bits,
            best_idx,
        })
    }
}

} // verus!
