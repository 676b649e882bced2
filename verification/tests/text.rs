use interoperability_tests_sv2::text::{decimal_string, push_decimal, push_hex_byte};

#[test]
fn decimal_notation_of_integers() {
    assert_eq!(decimal_string(0), "0");
    assert_eq!(decimal_string(7), "7");
    assert_eq!(decimal_string(10), "10");
    assert_eq!(decimal_string(1_000_000), "1000000");
    assert_eq!(decimal_string(u64::MAX), u64::MAX.to_string());
    let mut s = String::from("x=");
    push_decimal(&mut s, 4096);
    assert_eq!(s, "x=4096");
}

#[test]
fn two_lower_case_hex_digits_per_byte() {
    for b in [0u8, 1, 0x0f, 0x10, 0x15, 0xab, 0xff] {
        let mut s = String::new();
        push_hex_byte(&mut s, b);
        assert_eq!(s, format!("{b:02x}"));
    }
}
