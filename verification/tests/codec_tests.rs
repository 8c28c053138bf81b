use keyhunter::encode::{scalar_bytes, value_bytes};
use keyhunter::hex::bytes_to_hex;

#[test]
fn bytes_to_hex_renders_two_digits_per_byte() {
    assert_eq!(bytes_to_hex(&vec![0x00, 0xab, 0xff]), "00abff");
    assert_eq!(bytes_to_hex(&vec![0x12, 0x34]), "1234");
}

#[test]
fn bytes_to_hex_of_empty_buffer_is_empty() {
    assert_eq!(bytes_to_hex(&Vec::new()), "");
}

#[test]
fn bytes_to_hex_uses_lower_case_digits() {
    assert_eq!(bytes_to_hex(&vec![0x0f, 0xa0, 0xde]), "0fa0de");
}

#[test]
fn scalar_bytes_right_aligns_under_leading_zeros() {
    let b = scalar_bytes(0x1234);
    assert_eq!(b.len(), 32);
    for i in 0..30 {
        assert_eq!(b[i], 0);
    }
    assert_eq!(b[30], 0x12);
    assert_eq!(b[31], 0x34);
}

#[test]
fn scalar_bytes_of_largest_value_fills_low_half() {
    let b = scalar_bytes(u128::MAX);
    for i in 0..16 {
        assert_eq!(b[i], 0x00);
    }
    for i in 16..32 {
        assert_eq!(b[i], 0xff);
    }
}

#[test]
fn value_bytes_is_the_sixteen_byte_big_endian_form() {
    let b = value_bytes(0x0102);
    assert_eq!(b.len(), 16);
    for i in 0..14 {
        assert_eq!(b[i], 0);
    }
    assert_eq!(b[14], 0x01);
    assert_eq!(b[15], 0x02);
}
