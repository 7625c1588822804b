use swappy::bytesize_display::{ByteSizeDisplayGiB, ByteSizeDisplayKiB};
use swappy::text::{
    decimal_string, gib_string, hex_string, kib_string, push_left_padded, push_right_padded,
    push_spaces, signed_decimal_string,
};

#[test]
fn decimal_digits() {
    assert_eq!(decimal_string(0), "0");
    assert_eq!(decimal_string(9), "9");
    assert_eq!(decimal_string(10), "10");
    assert_eq!(decimal_string(1_234_567_890), "1234567890");
    assert_eq!(decimal_string(u128::MAX), u128::MAX.to_string());
}

#[test]
fn hex_digits() {
    assert_eq!(hex_string(0), "0");
    assert_eq!(hex_string(255), "ff");
    assert_eq!(hex_string(0x7fff_dead_b000), "7fffdeadb000");
}

#[test]
fn signed_digits() {
    assert_eq!(signed_decimal_string(-42), "-42");
    assert_eq!(signed_decimal_string(42), "42");
    assert_eq!(signed_decimal_string(i64::MIN), i64::MIN.to_string());
}

#[test]
fn padding() {
    let mut s = String::new();
    push_left_padded(&mut s, "ab", 5);
    push_right_padded(&mut s, "cd", 4);
    push_left_padded(&mut s, "toolong", 3);
    push_spaces(&mut s, 2);
    assert_eq!(s, "   abcd  toolong  ");
}

#[test]
fn gibibytes_with_one_decimal() {
    assert_eq!(gib_string(0), "0.0");
    assert_eq!(gib_string(1_073_741_824), "1.0");
    assert_eq!(gib_string(3 * 1_073_741_824 / 2), "1.5");
    assert_eq!(gib_string(1_073_741_824 * 1000), "1000.0");
}

#[test]
fn gibibytes_round_like_float_formatting() {
    for bytes in [
        1u64,
        107_374_182,
        107_374_183,
        268_435_456,
        805_306_368,
        1_342_177_280,
        4_096 * 999_999,
        (1u64 << 40) + 12345,
    ] {
        let float = format!("{:.1}", bytes as f64 / 1024.0 / 1024.0 / 1024.0);
        assert_eq!(gib_string(bytes as u128), float, "bytes {}", bytes);
    }
}

#[test]
fn kibibytes_round_down() {
    assert_eq!(kib_string(1023), "0");
    assert_eq!(kib_string(4096), "4");
    assert_eq!(kib_string(u64::MAX), (u64::MAX / 1024).to_string());
}

#[test]
fn byte_size_display_units() {
    let g = ByteSizeDisplayGiB(3 * 1_073_741_824 / 2);
    assert_eq!(g.to_string(), "1.5");
    assert_eq!(g.to_string_width(5), "  1.5");
    assert_eq!(g.to_string_width(2), "1.5");
    let k = ByteSizeDisplayKiB(10 * 1024 + 1023);
    assert_eq!(k.to_string(), "10");
    assert_eq!(k.to_string_width(9), format!("{:9}", 10));
}
