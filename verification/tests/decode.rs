use preprocessing::record::{
    DecodeError, TrainingSample, BEST_D_OFFSET, BEST_IDX_OFFSET, BEST_Q_OFFSET, CASTLING_OFFSET,
    INPUT_FORMAT_OFFSET, PLANES_OFFSET, RECORD_SIZE, RULE50_OFFSET, SIDE_TO_MOVE_OFFSET,
};

fn put_u16(v: &mut Vec<u8>, off: usize, x: u16) {
    v[off..off + 2].copy_from_slice(&x.to_le_bytes());
}

fn put_u32(v: &mut Vec<u8>, off: usize, x: u32) {
    v[off..off + 4].copy_from_slice(&x.to_le_bytes());
}

fn put_u64(v: &mut Vec<u8>, off: usize, x: u64) {
    v[off..off + 8].copy_from_slice(&x.to_le_bytes());
}

fn zero_record_with_version(version: u32) -> Vec<u8> {
    let mut bytes = vec![0u8; RECORD_SIZE];
    put_u32(&mut bytes, 0, version);
    bytes
}

#[test]
fn layout_determinism_all_zero_record() {
    let bytes = zero_record_with_version(6);
    let sample = TrainingSample::read_from(&bytes, 0).unwrap();
    assert_eq!(sample.bitboards, vec![0u64; 12]);
    assert_eq!(sample.input_format, 0);
    assert!(!sample.castling_us_ooo);
    assert!(!sample.castling_us_oo);
    assert!(!sample.castling_them_ooo);
    assert!(!sample.castling_them_oo);
    assert_eq!(sample.side_to_move_or_enpassant, 0);
    assert_eq!(sample.rule50_count, 0);
    assert_eq!(sample.best_q_bits, 0);
    assert_eq!(sample.best_d_bits, 0);
    assert_eq!(sample.best_idx, 0);
}

#[test]
fn version_gate_rejects_other_versions() {
    let r5 = TrainingSample::read_from(&zero_record_with_version(5), 0);
    assert!(matches!(r5, Err(DecodeError::VersionMismatch)));
    let r7 = TrainingSample::read_from(&zero_record_with_version(7), 0);
    assert!(matches!(r7, Err(DecodeError::VersionMismatch)));
    let r0 = TrainingSample::read_from(&zero_record_with_version(0), 0);
    assert!(matches!(r0, Err(DecodeError::VersionMismatch)));
}

#[test]
fn truncated_record_is_detected() {
    let mut bytes = zero_record_with_version(6);
    bytes.pop();
    let r = TrainingSample::read_from(&bytes, 0);
    assert!(matches!(r, Err(DecodeError::TruncatedRecord)));
    let r = TrainingSample::read_from(&Vec::new(), 0);
    assert!(matches!(r, Err(DecodeError::TruncatedRecord)));
}

#[test]
fn fields_are_read_little_endian_at_their_offsets() {
    let mut bytes = zero_record_with_version(6);
    put_u32(&mut bytes, INPUT_FORMAT_OFFSET, 0x0403_0201);
    bytes[CASTLING_OFFSET] = 1;
    bytes[CASTLING_OFFSET + 1] = 0;
    bytes[CASTLING_OFFSET + 2] = 7;
    bytes[CASTLING_OFFSET + 3] = 0;
    bytes[SIDE_TO_MOVE_OFFSET] = 1;
    bytes[RULE50_OFFSET] = 42;
    put_u32(&mut bytes, BEST_Q_OFFSET, 0x3F80_0000);
    put_u32(&mut bytes, BEST_D_OFFSET, 0x3E80_0000);
    put_u16(&mut bytes, BEST_IDX_OFFSET, 1857);
    let sample = TrainingSample::read_from(&bytes, 0).unwrap();
    assert_eq!(sample.input_format, 0x0403_0201);
    assert!(sample.castling_us_ooo);
    assert!(!sample.castling_us_oo);
    assert!(sample.castling_them_ooo);
    assert!(!sample.castling_them_oo);
    assert_eq!(sample.side_to_move_or_enpassant, 1);
    assert_eq!(sample.rule50_count, 42);
    assert_eq!(sample.best_q_bits, 0x3F80_0000);
    assert_eq!(sample.best_d_bits, 0x3E80_0000);
    assert_eq!(sample.best_idx, 1857);
}

#[test]
fn bitboards_are_corrected_at_decode_time() {
    let mut bytes = zero_record_with_version(6);
    // plane 3 (own rooks): raw engine order, bit-reversed per byte
    put_u64(&mut bytes, PLANES_OFFSET + 8 * 3, 0x0102030405060708);
    let sample = TrainingSample::read_from(&bytes, 0).unwrap();
    assert_eq!(sample.bitboards[3], 0x8040C020A060E010);
    for k in 0..12 {
        if k != 3 {
            assert_eq!(sample.bitboards[k], 0);
        }
    }
}

#[test]
fn read_from_respects_offset() {
    let mut bytes = zero_record_with_version(6);
    let mut second = zero_record_with_version(6);
    put_u16(&mut second, BEST_IDX_OFFSET, 123);
    bytes.extend_from_slice(&second);
    let first = TrainingSample::read_from(&bytes, 0).unwrap();
    assert_eq!(first.best_idx, 0);
    let second = TrainingSample::read_from(&bytes, RECORD_SIZE).unwrap();
    assert_eq!(second.best_idx, 123);
}
