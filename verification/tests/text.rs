use diogen::text::{digit_text, push_decimal, push_hex_padded, push_joined, same_text};

#[test]
fn digits_are_written_in_upper_case() {
    let all: Vec<&str> = (0u8..16).map(digit_text).collect();
    assert_eq!(all.concat(), "0123456789ABCDEF");
}

#[test]
fn decimal_agrees_with_the_formatter() {
    for n in [0u128, 1, 9, 10, 11, 99, 100, 101, 255, 256, 1000, 65535, 4294967296, u64::MAX as u128, u128::MAX] {
        let mut s = String::from("n=");
        push_decimal(&mut s, n);
        assert_eq!(s, format!("n={}", n));
    }
}

#[test]
fn decimal_of_given_numbers() {
    let mut s = String::new();
    push_decimal(&mut s, 0);
    assert_eq!(s, "0");
    push_decimal(&mut s, 1_234_567_890);
    assert_eq!(s, "01234567890");
}

#[test]
fn hex_is_padded_to_the_width() {
    let mut s = String::new();
    push_hex_padded(&mut s, 0xa, 4);
    assert_eq!(s, "000A");
    let mut s = String::new();
    push_hex_padded(&mut s, 0xabcde, 4);
    assert_eq!(s, "ABCDE");
    let mut s = String::new();
    push_hex_padded(&mut s, 0, 0);
    assert_eq!(s, "0");
    let mut s = String::new();
    push_hex_padded(&mut s, 0, 1);
    assert_eq!(s, "0");
    let mut s = String::from("x");
    push_hex_padded(&mut s, u32::MAX, 255);
    assert_eq!(s, format!("x{:0255X}", u32::MAX));
}

#[test]
fn hex_agrees_with_the_formatter() {
    for n in [0u32, 1, 15, 16, 255, 256, 0xabc, 0x12345, 0xffffff, 0x1000000, u32::MAX] {
        for width in [0u8, 1, 2, 6, 8, 9] {
            let mut s = String::new();
            push_hex_padded(&mut s, n, width);
            assert_eq!(s, format!("{:0w$X}", n, w = width as usize));
        }
    }
}

#[test]
fn same_text_compares_the_characters() {
    assert!(same_text("", ""));
    assert!(same_text("abc", "abc"));
    assert!(!same_text("abc", "abd"));
    assert!(!same_text("abc", "ab"));
    assert!(!same_text("ab", "abc"));
    assert!(!same_text("abc", "Abc"));
    assert!(same_text("héllo", "héllo"));
    assert!(!same_text("héllo", "hèllo"));
}

#[test]
fn joining_puts_the_separator_between() {
    let mut s = String::from("[");
    push_joined(&mut s, &vec![], ", ");
    assert_eq!(s, "[");
    push_joined(&mut s, &vec![String::from("a")], ", ");
    assert_eq!(s, "[a");
    let mut s = String::new();
    push_joined(&mut s, &vec![String::from("a"), String::from("b"), String::from("c")], ", ");
    assert_eq!(s, "a, b, c");
    let mut s = String::new();
    push_joined(&mut s, &vec![String::new(), String::new()], "-");
    assert_eq!(s, "-");
}
