use chess_core::bitboard::Bitboard;

#[test]
fn test_new_bitboard() {
    let bitboard = Bitboard::new();
    assert_eq!(bitboard.data, 0);
}

#[test]
fn test_new_bitboard_display() {
    let bitboard = Bitboard::new();
    assert_eq!(
        bitboard.render(),
        "00000000 00000000 00000000 00000000 00000000 00000000 00000000 00000000"
    );
}

#[test]
fn test_from_bitboard() {
    let bitboard = Bitboard::from(123456789);
    assert_eq!(bitboard.data, 123456789);
}

#[test]
fn test_from_bitboard_display() {
    let bitboard = Bitboard::from(123456789);
    assert_eq!(
        bitboard.render(),
        "00000000 00000000 00000000 00000000 00000111 01011011 11001101 00010101"
    );
}

#[test]
fn test_set_bit() {
    let mut bitboard = Bitboard::new();
    bitboard.set_bit(3);
    assert_eq!(bitboard.data, 0b1000);
}

#[test]
fn test_get_bit() {
    let bitboard = Bitboard::from(0b1000);
    assert!(bitboard.get_bit(3));
    assert!(!bitboard.get_bit(2));
}

#[test]
fn test_clear_bit() {
    let mut bitboard = Bitboard::from(0b1111);
    bitboard.clear_bit(2);
    assert_eq!(bitboard.data, 0b1011);
}

#[test]
fn test_shift_up() {
    let mut bitboard = Bitboard::from(0b11111111);
    bitboard.shift_up();
    assert_eq!(bitboard.data, 0b1111111100000000);
}

#[test]
fn test_shift_down() {
    let mut bitboard = Bitboard::from(0b1111111100000000);
    bitboard.shift_down();
    assert_eq!(bitboard.data, 0b11111111);
}

#[test]
fn test_set_and_get_edge_cases() {
    let mut bitboard = Bitboard::new();

    bitboard.set_bit(0);
    assert!(bitboard.get_bit(0));

    bitboard.set_bit(63);
    assert!(bitboard.get_bit(63));

    assert!(!bitboard.get_bit(1));
    assert!(!bitboard.get_bit(62));
}

#[test]
fn test_clear_edge_cases() {
    let mut bitboard = Bitboard::from(u64::MAX);

    bitboard.clear_bit(0);
    assert!(!bitboard.get_bit(0));

    bitboard.clear_bit(63);
    assert!(!bitboard.get_bit(63));
}

#[test]
fn test_set_clear_round_trip_all_indices() {
    for i in 0..64u8 {
        let mut bitboard = Bitboard::new();
        assert!(!bitboard.get_bit(i));
        bitboard.set_bit(i);
        assert!(bitboard.get_bit(i));
        for j in 0..64u8 {
            if j != i {
                assert!(!bitboard.get_bit(j));
            }
        }
        bitboard.clear_bit(i);
        assert!(!bitboard.get_bit(i));
        assert_eq!(bitboard.data, 0);
    }
}

#[test]
fn test_index_wraps_modulo_64() {
    let mut bitboard = Bitboard::new();
    bitboard.set_bit(64);
    assert!(bitboard.get_bit(0));
    assert!(bitboard.get_bit(64));
    assert_eq!(bitboard.data, 1);
    bitboard.clear_bit(128);
    assert!(!bitboard.get_bit(0));
    assert_eq!(bitboard.data, 0);
}

#[test]
fn test_shift_round_trip_below_top_rank() {
    let mut bitboard = Bitboard::from(0x00ff_0000_0000_1234);
    bitboard.shift_up();
    bitboard.shift_down();
    assert_eq!(bitboard.data, 0x00ff_0000_0000_1234);
}

#[test]
fn test_shift_up_drops_bit_63() {
    let mut bitboard = Bitboard::new();
    bitboard.set_bit(63);
    bitboard.shift_up();
    assert_eq!(bitboard.data, 0);
    for i in 0..64u8 {
        assert!(!bitboard.get_bit(i));
    }
}

#[test]
fn test_single_bit_display() {
    let bitboard = Bitboard::from(1 << 63);
    assert_eq!(
        bitboard.render(),
        "10000000 00000000 00000000 00000000 00000000 00000000 00000000 00000000"
    );
    let bitboard = Bitboard::from(1);
    assert_eq!(
        bitboard.render(),
        "00000000 00000000 00000000 00000000 00000000 00000000 00000000 00000001"
    );
}
