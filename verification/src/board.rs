//! Reconstruction of a board from the 12 corrected bitboard planes,
//! and the castling-rook masks inferred from the first record of a game.

use vstd::prelude::*;
use crate::bits::{
    count_bits, count_ones, lemma_count_bits_bound, lowest_bit, spec_lowest_bit, spec_swap_bytes,
    swap_bytes,
};
use crate::record::{TrainingSample, NUM_PLANES};

verus! {

/// A reconstructed position: one bitboard per piece role (both sides
/// together) and one occupancy bitboard per side.
///
/// No legality or mutual-exclusivity checking is performed: the planes
/// come from a single authoritative source and are trusted to place at
/// most one piece on a square.
#[derive(Clone, Copy, Debug, PartialEq, Eq, Structural)]
pub struct BoardState {
    /// Squares holding a pawn of either side.
    pub pawns: u64,
    /// Squares holding a knight of either side.
    pub knights: u64,
    /// Squares holding a bishop of either side.
    pub bishops: u64,
    /// Squares holding a rook of either side.
    pub rooks: u64,
    /// Squares holding a queen of either side.
    pub queens: u64,
    /// Squares holding a king.
    pub kings: u64,
    /// Squares occupied by the side to move.
    pub white: u64,
    /// Squares occupied by the opponent.
    pub black: u64,
}

/// The board reconstructed from 12 planes: each role bitboard is the
/// union of the two per-side planes of that role, each side occupancy
/// the union of that side's six planes.
pub open spec fn spec_board(bbs: Seq<u64>) -> BoardState {
    BoardState {
        pawns: bbs[0] | bbs[6],
        knights: bbs[1] | bbs[7],
        bishops: bbs[2] | bbs[8],
        rooks: bbs[3] | bbs[9],
        queens: bbs[4] | bbs[10],
        kings: bbs[5] | bbs[11],
        white: bbs[0] | bbs[1] | bbs[2] | bbs[3] | bbs[4] | bbs[5],
        black: bbs[6] | bbs[7] | bbs[8] | bbs[9] | bbs[10] | bbs[11],
    }
}

/// The number of occupied squares summed over the first `n` planes.
pub open spec fn piece_count_rec(bbs: Seq<u64>, n: int) -> nat
    decreases n,
{
    if n <= 0 {
        0nat
    } else {
        piece_count_rec(bbs, n - 1) + count_bits(bbs[n - 1])
    }
}

/// The number of occupied squares summed over all planes.
pub open spec fn spec_piece_count(bbs: Seq<u64>) -> nat {
    piece_count_rec(bbs, bbs.len() as int)
}

impl TrainingSample {
    /// Combines the 12 corrected planes into a [`BoardState`].
    pub fn to_board(&self) -> (r: BoardState)
        requires
            self.wf(),
        ensures
            r == spec_board(self.bitboards@),
    {
        BoardState {
            pawns: self.bitboards[0] | self.bitboards[6],
            knights: self.bitboards[1] | self.bitboards[7],
            bishops: self.bitboards[2] | self.bitboards[8],
            rooks: self.bitboards[3] | self.bitboards[9],
            queens: self.bitboards[4] | self.bitboards[10],
            kings: self.bitboards[5] | self.bitboards[11],
            white: self.bitboards[0] | self.bitboards[1] | self.bitboards[2] | self.bitboards[3]
                | self.bitboards[4] | self.bitboards[5],
            black: self.bitboards[6] | self.bitboards[7] | self.bitboards[8] | self.bitboards[9]
                | self.bitboards[10] | self.bitboards[11],
        }
    }

    /// Counts the occupied squares over the 12 per-role, per-side planes.
    pub fn piece_count(&self) -> (r: u32)
        requires
            self.wf(),
        ensures
            r as nat == spec_piece_count(self.bitboards@),
    {
        let mut c: u32 = 0;
        let mut k: usize = 0;
        while k < NUM_PLANES
            invariant
                self.wf(),
                k <= NUM_PLANES,
                c <= 64 * k,
                c as nat == piece_count_rec(self.bitboards@, k as int),
            decreases NUM_PLANES - k,
        {
            proof {
                lemma_count_bits_bound(self.bitboards@[k as int]);
            }
            c = c + count_ones(self.bitboards[k]);
            k = k + 1;
        }
        c
    }
}

/// The four castling-rook masks of one game, inferred once from the
/// game's first record and shared read-only by all its records.
#[derive(Clone, Copy, Debug, PartialEq, Eq, Structural)]
pub struct CastlingBitboards {
    /// Starting square of the own kingside rook.
    pub castling_us_oo: u64,
    /// Starting square of the own queenside rook.
    pub castling_us_ooo: u64,
    /// Starting square of the opponent kingside rook.
    pub castling_them_oo: u64,
    /// Starting square of the opponent queenside rook.
    pub castling_them_ooo: u64,
}

/// The masks derived from an own-rook bitboard: the kingside mask
/// isolates the lowest set bit, the queenside mask holds the remaining
/// bits, and the opponent masks are the byte-swapped own masks, by the
/// point symmetry of the two back ranks.
pub open spec fn spec_castling_from_rooks(rooks: u64) -> CastlingBitboards {
    CastlingBitboards {
        castling_us_oo: spec_lowest_bit(rooks),
        castling_us_ooo: rooks ^ spec_lowest_bit(rooks),
        castling_them_oo: spec_swap_bytes(spec_lowest_bit(rooks)),
        castling_them_ooo: spec_swap_bytes(rooks ^ spec_lowest_bit(rooks)),
    }
}

impl CastlingBitboards {
    /// Derives the four masks from the corrected own-rook bitboard of
    /// the first record of a game.
    ///
    /// Meaningful only when that bitboard still shows the rooks on
    /// their starting squares, with exactly two bits set; for any other
    /// input the masks are produced all the same, with no error raised.
    pub fn infer(our_rooks: u64) -> (r: CastlingBitboards)
        ensures
            r == spec_castling_from_rooks(our_rooks),
    {
        let castling_us_oo = lowest_bit(our_rooks);
        let castling_us_ooo = our_rooks ^ castling_us_oo;
        CastlingBitboards {
            castling_us_oo,
            castling_us_ooo,
            castling_them_oo: swap_bytes(castling_us_oo),
            castling_them_ooo: swap_bytes(castling_us_ooo),
        }
    }
}

} // verus!
