//! The per-game pipeline: filtering decoded records, emitting training
//! examples, and processing one decompressed stream or one
//! gzip-compressed archive entry end to end.

use vstd::prelude::*;
use vstd::arithmetic::div_mod::lemma_fundamental_div_mod;
use vstd::string::StrSliceExecFns;
use vstd::string::StringSliceAdditionalSpecFns;
use crate::board::{
    spec_board, spec_castling_from_rooks, spec_piece_count, BoardState, CastlingBitboards,
};
use crate::record::{
    le16, le32, plane_at, DecodeError, TrainingSample, BEST_D_OFFSET, BEST_IDX_OFFSET,
    BEST_Q_OFFSET, FORMAT_VERSION, NUM_PLANES, RECORD_SIZE,
};

verus! {

/// Positions with at most this many pieces are dropped: such endgames
/// are usually adjudicated by an external tablebase and add no
/// training value.
pub const MIN_PIECES: u32 = 7;

/// Notations longer than this many characters mark promotion moves,
/// which are filtered out.
pub const MAX_NOTATION_LEN: usize = 4;

/// One emitted training example: the reconstructed board, the training
/// targets of the record, and the castling masks of its game.
#[derive(Clone, Copy, Debug, PartialEq, Eq, Structural)]
pub struct TrainingExample {
    /// The reconstructed position.
    pub board: BoardState,
    /// Bit pattern of the best-value target.
    pub best_q_bits: u32,
    /// Bit pattern of the best-draw-probability target.
    pub best_d_bits: u32,
    /// Index of the best move in the policy head.
    pub best_idx: u16,
    /// The castling-rook masks inferred from the game's first record.
    pub castling: CastlingBitboards,
}

/// Whether a record passes both filters: more than [`MIN_PIECES`]
/// occupied squares over the 12 planes, and a best move whose notation
/// is in the table and no longer than [`MAX_NOTATION_LEN`] characters.
/// A move index beyond the table counts as not passing.
pub open spec fn spec_passes_filters(t: TrainingSample, table: Seq<String>) -> bool {
    &&& spec_piece_count(t.bitboards@) > MIN_PIECES
    &&& (t.best_idx as int) < table.len()
    &&& table[t.best_idx as int]@.len() <= MAX_NOTATION_LEN
}

/// The example emitted for a record that passes the filters.
pub open spec fn spec_example(t: TrainingSample, castling: CastlingBitboards) -> TrainingExample {
    TrainingExample {
        board: spec_board(t.bitboards@),
        best_q_bits: t.best_q_bits,
        best_d_bits: t.best_d_bits,
        best_idx: t.best_idx,
        castling,
    }
}

/// Decides whether `sample` is kept and, if so, builds its example.
///
/// A total decision: a record is dropped when it has at most
/// [`MIN_PIECES`] pieces, when its move index lies outside the table,
/// or when the notation found there is longer than
/// [`MAX_NOTATION_LEN`] characters (a promotion move).
pub fn process_position(
    sample: &TrainingSample,
    castling: &CastlingBitboards,
    move_table: &Vec<String>,
) -> (r: Option<TrainingExample>)
    requires
        sample.wf(),
    ensures
        r is Some <==> spec_passes_filters(*sample, move_table@),
        r matches Some(ex) ==> ex == spec_example(*sample, *castling),
{
    let num_pieces = sample.piece_count();
    if num_pieces <= MIN_PIECES {
        return None;
    }
    let idx = sample.best_idx as usize;
    if idx >= move_table.len() {
        return None;
    }
    let notation = &move_table[idx];
    if notation.as_str().unicode_len() > MAX_NOTATION_LEN {
        return None;
    }
    Some(
        TrainingExample {
            board: sample.to_board(),
            best_q_bits: sample.best_q_bits,
            best_d_bits: sample.best_d_bits,
            best_idx: sample.best_idx,
            castling: *castling,
        },
    )
}

/// Byte offset of record `i` in a stream.
pub open spec fn rec_off(i: int) -> int {
    i * (RECORD_SIZE as int)
}

/// The number of full records a stream holds.
pub open spec fn num_records(s: Seq<u8>) -> int {
    (s.len() as int) / (RECORD_SIZE as int)
}

/// Record `i` carries the supported format version.
pub open spec fn rec_version_ok(s: Seq<u8>, i: int) -> bool {
    le32(s, rec_off(i)) == FORMAT_VERSION
}

/// The first `n` records all carry the supported format version.
pub open spec fn versions_ok_up_to(s: Seq<u8>, n: int) -> bool {
    forall|j: int| 0 <= j < n ==> #[trigger] rec_version_ok(s, j)
}

/// The stream is a whole number of records: nothing is cut off.
pub open spec fn stream_aligned(s: Seq<u8>) -> bool {
    (s.len() as int) % (RECORD_SIZE as int) == 0
}

/// The whole stream decodes: it is aligned and every record carries
/// the supported version.
pub open spec fn stream_ok(s: Seq<u8>) -> bool {
    stream_aligned(s) && versions_ok_up_to(s, num_records(s))
}

/// The 12 corrected bitboard planes of record `i`.
pub open spec fn rec_planes(s: Seq<u8>, i: int) -> Seq<u64> {
    Seq::new(NUM_PLANES as nat, |k: int| plane_at(s, rec_off(i), k))
}

/// The castling masks of a stream's game, inferred from the own-rook
/// plane of its first record.
pub open spec fn spec_game_castling(s: Seq<u8>) -> CastlingBitboards {
    spec_castling_from_rooks(plane_at(s, 0, 3))
}

/// Record `i` of the stream passes both filters.
pub open spec fn rec_passes(s: Seq<u8>, i: int, table: Seq<String>) -> bool {
    &&& spec_piece_count(rec_planes(s, i)) > MIN_PIECES
    &&& (le16(s, rec_off(i) + BEST_IDX_OFFSET) as int) < table.len()
    &&& table[le16(s, rec_off(i) + BEST_IDX_OFFSET) as int]@.len() <= MAX_NOTATION_LEN
}

/// The example emitted for record `i` of the stream.
pub open spec fn rec_example(s: Seq<u8>, i: int, castling: CastlingBitboards) -> TrainingExample {
    TrainingExample {
        board: spec_board(rec_planes(s, i)),
        best_q_bits: le32(s, rec_off(i) + BEST_Q_OFFSET),
        best_d_bits: le32(s, rec_off(i) + BEST_D_OFFSET),
        best_idx: le16(s, rec_off(i) + BEST_IDX_OFFSET),
        castling,
    }
}

/// The examples emitted for the first `n` records of the stream, in
/// stream order, each tagged with the game's castling masks.
pub open spec fn emitted_up_to(s: Seq<u8>, table: Seq<String>, n: int) -> Seq<TrainingExample>
    decreases n,
{
    if n <= 0 {
        Seq::empty()
    } else if rec_passes(s, n - 1, table) {
        emitted_up_to(s, table, n - 1).push(rec_example(s, n - 1, spec_game_castling(s)))
    } else {
        emitted_up_to(s, table, n - 1)
    }
}

/// Processes one decompressed stream: a concatenation of fixed-size
/// records forming one game.
///
/// The castling masks are inferred once, from the first record, and
/// tag every emitted example of the stream. Every record, the first
/// included, is filtered and possibly emitted. An empty stream yields
/// no examples. A version mismatch in any full record fails the whole
/// stream, as does a trailing partial record; a clean end exactly at a
/// record boundary does not.
pub fn process_game(stream: &Vec<u8>, table: &Vec<String>) -> (r: Result<
    Vec<TrainingExample>,
    DecodeError,
>)
    ensures
        r is Ok <==> stream_ok(stream@),
        r matches Ok(v) ==> v@ == emitted_up_to(stream@, table@, num_records(stream@)),
        r matches Err(e) ==> ((e == DecodeError::VersionMismatch) <==> !versions_ok_up_to(
            stream@,
            num_records(stream@),
        )),
        r matches Err(e) ==> ((e == DecodeError::TruncatedRecord) <==> versions_ok_up_to(
            stream@,
            num_records(stream@),
        ) && !stream_aligned(stream@)),
{
    proof {
        lemma_fundamental_div_mod(stream@.len() as int, RECORD_SIZE as int);
    }
    let n = stream.len() / RECORD_SIZE;
    let rem = stream.len() % RECORD_SIZE;
    if n == 0 {
        if rem != 0 {
            return Err(DecodeError::TruncatedRecord);
        }
        return Ok(Vec::new());
    }
    let first = match TrainingSample::read_from(stream, 0) {
        Ok(t) => t,
        Err(e) => {
            proof {
                assert(!rec_version_ok(stream@, 0));
            }
            return Err(e);
        },
    };
    let castling = CastlingBitboards::infer(first.bitboards[3]);
    let mut out: Vec<TrainingExample> = Vec::new();
    let mut i: usize = 0;
    while i < n
        invariant
            n == num_records(stream@),
            rem == (stream@.len() as int) % (RECORD_SIZE as int),
            stream@.len() == (RECORD_SIZE as int) * (n as int) + rem,
            stream@.len() <= usize::MAX,
            i <= n,
            versions_ok_up_to(stream@, i as int),
            castling == spec_game_castling(stream@),
            out@ == emitted_up_to(stream@, table@, i as int),
        decreases n - i,
    {
        proof {
            assert((i as int) * (RECORD_SIZE as int) + (RECORD_SIZE as int) <= (
            RECORD_SIZE as int) * (n as int)) by (nonlinear_arith)
                requires
                    (i as int) < (n as int),
                    (RECORD_SIZE as int) > 0,
            ;
        }
        let off = i * RECORD_SIZE;
        let sample = match TrainingSample::read_from(stream, off) {
            Ok(t) => t,
            Err(e) => {
                proof {
                    assert(!rec_version_ok(stream@, i as int));
                }
                return Err(e);
            },
        };
        proof {
            assert(sample.bitboards@ =~= rec_planes(stream@, i as int));
        }
        match process_position(&sample, &castling, table) {
            Some(ex) => {
                proof {
                    assert(ex == rec_example(stream@, i as int, spec_game_castling(stream@)));
                }
                out.push(ex);
            },
            None => {},
        }
        i = i + 1;
    }
    if rem != 0 {
        return Err(DecodeError::TruncatedRecord);
    }
    Ok(out)
}

/// The bytes that `data` decompresses to as one gzip stream, or
/// nothing when `data` is not a well-formed gzip stream.
pub uninterp spec fn gunzip_of(data: Seq<u8>) -> Option<Seq<u8>>;

/// Relies on flate2's `GzDecoder` read to the end of the stream:
/// whether a byte sequence decompresses, and to which bytes, depends
/// on that sequence alone.
#[verifier::external_body]
fn gunzip(data: &Vec<u8>) -> (r: Option<Vec<u8>>)
    ensures
        match r {
            Some(v) => gunzip_of(data@) == Some(v@),
            None => gunzip_of(data@) is None,
        },
{
    let mut decoder = flate2::read::GzDecoder::new(data.as_slice());
    let mut out: Vec<u8> = Vec::new();
    match std::io::Read::read_to_end(&mut decoder, &mut out) {
        Ok(_) => Some(out),
        Err(_) => None,
    }
}

/// Why an archive entry yielded no examples.
#[derive(Clone, Copy, Debug, PartialEq, Eq, Structural)]
pub enum EntryError {
    /// The entry's bytes were not a well-formed gzip stream.
    Decompression,
    /// The decompressed stream held a record that could not be decoded.
    Decode(DecodeError),
}

/// Processes one archive entry: decompresses its bytes and runs
/// [`process_game`] on the resulting stream.
pub fn process_entry(data: &Vec<u8>, table: &Vec<String>) -> (r: Result<
    Vec<TrainingExample>,
    EntryError,
>)
    ensures
        (r matches Err(e) && e == EntryError::Decompression) <==> gunzip_of(data@) is None,
        gunzip_of(data@) matches Some(s) ==> (r is Ok <==> stream_ok(s)),
        gunzip_of(data@) matches Some(s) ==> (r matches Ok(v) ==> v@ == emitted_up_to(
            s,
            table@,
            num_records(s),
        )),
        gunzip_of(data@) matches Some(s) ==> (r matches Err(e) ==> (e == EntryError::Decode(
            DecodeError::VersionMismatch,
        ) <==> !versions_ok_up_to(s, num_records(s)))),
        gunzip_of(data@) matches Some(s) ==> (r matches Err(e) ==> (e == EntryError::Decode(
            DecodeError::TruncatedRecord,
        ) <==> versions_ok_up_to(s, num_records(s)) && !stream_aligned(s))),
{
    match gunzip(data) {
        None => Err(EntryError::Decompression),
        Some(bytes) => match process_game(&bytes, table) {
            Ok(v) => Ok(v),
            Err(e) => Err(EntryError::Decode(e)),
        },
    }
}

/// Whether the bytes of `b` end in ".gz".
pub open spec fn spec_has_gz_suffix(b: Seq<u8>) -> bool {
    b.len() >= 3 && b[b.len() - 3] == 46u8 && b[b.len() - 2] == 103u8 && b[b.len() - 1] == 122u8
}

/// Whether an archive entry's name ends in ".gz" — the entries that
/// hold training streams; all others are skipped.
pub fn has_gz_suffix(name: &str) -> (r: bool)
    ensures
        r == spec_has_gz_suffix(name.spec_bytes()),
{
    let b = name.as_bytes();
    let n = b.len();
    if n < 3 {
        return false;
    }
    b[n - 3] == 46 && b[n - 2] == 103 && b[n - 1] == 122
}

} // verus!
