use preprocessing::bits::{count_ones, lowest_bit, reverse_bits_in_bytes, swap_bytes};

#[test]
fn reverse_bits_known_values() {
    assert_eq!(reverse_bits_in_bytes(0), 0);
    assert_eq!(reverse_bits_in_bytes(0x01), 0x80);
    assert_eq!(reverse_bits_in_bytes(0x80), 0x01);
    assert_eq!(reverse_bits_in_bytes(0xFF), 0xFF);
    assert_eq!(reverse_bits_in_bytes(0x0102030405060708), 0x8040C020A060E010);
    assert_eq!(reverse_bits_in_bytes(0x8000000000000000), 0x0100000000000000);
}

#[test]
fn reverse_bits_round_trip() {
    let values = [
        0u64,
        1,
        0x81,
        0xFFFF_FFFF_FFFF_FFFF,
        0x0123_4567_89AB_CDEF,
        0xDEAD_BEEF_CAFE_F00D,
        0x8000_0000_0000_0001,
        0x5555_5555_5555_5555,
    ];
    for &x in values.iter() {
        assert_eq!(reverse_bits_in_bytes(reverse_bits_in_bytes(x)), x);
    }
}

#[test]
fn reverse_bits_keeps_bytes_in_place() {
    let values = [0x0123_4567_89AB_CDEFu64, 0xDEAD_BEEF_CAFE_F00D, 0x8040_2010_0804_0201];
    for &x in values.iter() {
        for i in 0..8 {
            let mask = 0xFFu64 << (8 * i);
            // the bits of byte i of x land exactly in byte i of the result
            assert_eq!(reverse_bits_in_bytes(x & mask), reverse_bits_in_bytes(x) & mask);
        }
    }
}

#[test]
fn swap_bytes_known_values() {
    assert_eq!(swap_bytes(0), 0);
    assert_eq!(swap_bytes(0x01), 0x0100_0000_0000_0000);
    assert_eq!(swap_bytes(0x0102030405060708), 0x0807060504030201);
    assert_eq!(swap_bytes(swap_bytes(0xDEAD_BEEF_CAFE_F00D)), 0xDEAD_BEEF_CAFE_F00D);
}

#[test]
fn lowest_bit_known_values() {
    assert_eq!(lowest_bit(0), 0);
    assert_eq!(lowest_bit(0x81), 0x01);
    assert_eq!(lowest_bit(0x80), 0x80);
    assert_eq!(lowest_bit(0b1100), 0b100);
    assert_eq!(lowest_bit(0x8000_0000_0000_0000), 0x8000_0000_0000_0000);
}

#[test]
fn count_ones_known_values() {
    assert_eq!(count_ones(0), 0);
    assert_eq!(count_ones(1), 1);
    assert_eq!(count_ones(0x81), 2);
    assert_eq!(count_ones(0xFFFF_FFFF_FFFF_FFFF), 64);
    assert_eq!(count_ones(0x0123_4567_89AB_CDEF), 32);
}
