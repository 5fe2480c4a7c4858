use ir_tac::word::Word;

#[test]
fn from_big_endian_reads_one_byte() {
    assert_eq!(Word::from_u64(1), Word::from_big_endian(&[0x01]));
}

#[test]
fn from_big_endian_ignores_leading_zeros() {
    assert_eq!(Word::from_u64(1), Word::from_big_endian(&[0x00, 0x00, 0x01]));
}

#[test]
fn from_big_endian_reads_most_significant_first() {
    assert_eq!(Word::from_u64(0x0100), Word::from_big_endian(&[0x01, 0x00]));
    assert_eq!(Word::from_u64(0xDEADBEEF), Word::from_big_endian(&[0xDE, 0xAD, 0xBE, 0xEF]));
}

#[test]
fn from_big_endian_of_empty_is_zero() {
    assert_eq!(Word::from_u64(0), Word::from_big_endian(&[]));
}

#[test]
fn from_big_endian_fills_all_limbs() {
    let bytes = [0xFF; 32];
    let word = Word::from_big_endian(&bytes);
    assert_eq!(
        Word { limb3: u64::MAX, limb2: u64::MAX, limb1: u64::MAX, limb0: u64::MAX },
        word,
    );
}

#[test]
fn from_big_endian_splits_limbs_at_eight_bytes() {
    let mut bytes = [0u8; 9];
    bytes[0] = 0x02;
    bytes[8] = 0x03;
    let word = Word::from_big_endian(&bytes);
    assert_eq!(Word { limb3: 0, limb2: 0, limb1: 2, limb0: 3 }, word);
}

#[test]
fn from_u64_sets_low_limb() {
    let word = Word::from_u64(0xABCD);
    assert_eq!(Word { limb3: 0, limb2: 0, limb1: 0, limb0: 0xABCD }, word);
}
