use diogen::color::{Color, Error, ALPHA_ONE, ALPHA_ZERO, HEX_MAX};

fn bits(a: f32) -> u32 {
    a.to_bits()
}

#[test]
fn hex_of_channels() {
    assert_eq!(Color::from_rgb((0x12, 0x34, 0x56)).hex(), 0x123456);
    assert_eq!(Color::from_rgb((0, 0, 0)).hex(), 0);
    assert_eq!(Color::from_rgb((255, 255, 255)).hex(), 0xffffff);
    assert_eq!(Color::from_rgba((1, 2, 3, ALPHA_ONE)).hex(), 0x010203);
    assert_eq!(Color::from_hex(0xabcdef).hex(), 0xabcdef);
}

#[test]
fn channels_of_hex() {
    assert_eq!(Color::from_hex(0x123456).rgb(), (0x12, 0x34, 0x56));
    assert_eq!(Color::from_hex(0).rgb(), (0, 0, 0));
    assert_eq!(Color::from_hex(HEX_MAX).rgb(), (255, 255, 255));
    assert_eq!(Color::from_rgb((9, 8, 7)).rgb(), (9, 8, 7));
    assert_eq!(Color::from_rgba((9, 8, 7, ALPHA_ZERO)).rgb(), (9, 8, 7));
}

#[test]
fn channels_of_a_code_beyond_24_bits_leave_the_high_bits_out() {
    assert_eq!(Color::Hex(0xff123456).rgb(), (0x12, 0x34, 0x56));
    assert_eq!(Color::Hex(0xff123456).hex(), 0xff123456);
}

#[test]
fn hex_and_channels_round_trip() {
    for code in [0u32, 1, 0xff, 0x100, 0xffff, 0x10000, 0x7f7f7f, 0xfffffe, 0xffffff] {
        assert_eq!(Color::from_rgb(Color::from_hex(code).rgb()).hex(), code);
    }
    for rgb in [(0u8, 0u8, 0u8), (1, 2, 3), (255, 0, 128), (255, 255, 255)] {
        assert_eq!(Color::from_hex(Color::from_rgb(rgb).hex()).rgb(), rgb);
    }
}

#[test]
fn a_colour_without_alpha_is_opaque() {
    assert_eq!(Color::from_hex(0x102030).rgba(), (0x10, 0x20, 0x30, bits(1.0)));
    assert_eq!(Color::from_rgb((1, 2, 3)).rgba(), (1, 2, 3, bits(1.0)));
    assert_eq!(Color::from_rgba((1, 2, 3, bits(0.25))).rgba(), (1, 2, 3, bits(0.25)));
    assert_eq!(ALPHA_ONE, bits(1.0));
    assert_eq!(ALPHA_ZERO, bits(0.0));
}

#[test]
fn alpha_is_brought_into_range() {
    let cases: [f32; 16] = [
        0.0,
        -0.0,
        1.0,
        0.5,
        0.999_999_94,
        1.000_000_1,
        2.0,
        -0.5,
        -1.0e-40,
        1.0e-40,
        f32::MAX,
        f32::MIN,
        f32::INFINITY,
        f32::NEG_INFINITY,
        f32::MIN_POSITIVE,
        -f32::MIN_POSITIVE,
    ];
    for a in cases {
        let c = Color::from_rgba((1, 2, 3, bits(a)));
        assert_eq!(c, Color::Rgba((1, 2, 3, bits(a.clamp(0.0, 1.0)))), "alpha {}", a);
    }
}

#[test]
fn an_alpha_that_is_no_number_stays() {
    for pattern in [0x7fc0_0000u32, 0xffc0_0000, 0x7f80_0001, 0xff80_0001, 0x7fff_ffff, 0xffff_ffff] {
        assert!(f32::from_bits(pattern).is_nan());
        assert_eq!(Color::from_rgba((0, 0, 0, pattern)), Color::Rgba((0, 0, 0, pattern)));
    }
}

#[test]
fn from_rgb_and_from_hex_keep_the_form() {
    assert_eq!(Color::from_rgb((1, 2, 3)), Color::Rgb((1, 2, 3)));
    assert_eq!(Color::from_hex(0x010203), Color::Hex(0x010203));
    assert_ne!(Color::from_rgb((1, 2, 3)), Color::from_hex(0x010203));
}

#[test]
fn default_is_white() {
    assert_eq!(Color::default(), Color::Hex(0xffffff));
}

#[test]
fn hex_rep_has_six_upper_case_digits() {
    assert_eq!(Color::from_hex(0xabcdef).hex_rep(), "#ABCDEF");
    assert_eq!(Color::from_hex(0).hex_rep(), "#000000");
    assert_eq!(Color::from_hex(0xf).hex_rep(), "#00000F");
    assert_eq!(Color::from_hex(0x10).hex_rep(), "#000010");
    assert_eq!(Color::from_hex(0xffffff).hex_rep(), "#FFFFFF");
    assert_eq!(Color::from_rgb((1, 2, 3)).hex_rep(), "#010203");
    assert_eq!(Color::from_rgba((255, 0, 10, ALPHA_ZERO)).hex_rep(), "#FF000A");
}

#[test]
fn hex_rep_agrees_with_the_formatter() {
    for code in [0u32, 9, 0xa, 0x123, 0xfffff, 0x100000, 0xffffff, 0x1000000, 0xdeadbeef, u32::MAX] {
        assert_eq!(Color::Hex(code).hex_rep(), format!("#{:06X}", code));
    }
}

#[test]
fn rgb_rep_is_in_decimal() {
    assert_eq!(Color::from_rgb((18, 52, 86)).rgb_rep(), "rgb(18, 52, 86)");
    assert_eq!(Color::from_rgb((0, 0, 0)).rgb_rep(), "rgb(0, 0, 0)");
    assert_eq!(Color::from_rgb((255, 100, 9)).rgb_rep(), "rgb(255, 100, 9)");
    assert_eq!(Color::from_hex(0x123456).rgb_rep(), "rgb(18, 52, 86)");
}

#[test]
fn rgba_rep_takes_the_numeral_of_the_alpha() {
    let c = Color::from_rgba((18, 52, 86, bits(0.5)));
    let alpha = format!("{}", f32::from_bits(c.rgba().3));
    assert_eq!(c.rgba_rep(&alpha), "rgba(18, 52, 86, 0.5)");
    let opaque = Color::from_hex(0x0a0b0c);
    let alpha = format!("{}", f32::from_bits(opaque.rgba().3));
    assert_eq!(opaque.rgba_rep(&alpha), "rgba(10, 11, 12, 1)");
}

#[test]
fn to_text_follows_the_form() {
    assert_eq!(Color::Hex(0x00ff7f).to_text(""), "#00FF7F");
    assert_eq!(Color::Rgb((1, 20, 255)).to_text("ignored"), "rgb(1, 20, 255)");
    let c = Color::Rgba((1, 20, 255, bits(0.333)));
    let alpha = format!("{:.2}", f32::from_bits(c.rgba().3));
    assert_eq!(c.to_text(&alpha), "rgba(1, 20, 255, 0.33)");
}

#[test]
fn from_hex_rep_reads_six_digits() {
    assert_eq!(Color::from_hex_rep("#ABCDEF").unwrap(), Color::Hex(0xabcdef));
    assert_eq!(Color::from_hex_rep("abcdef").unwrap(), Color::Hex(0xabcdef));
    assert_eq!(Color::from_hex_rep("#000000").unwrap(), Color::Hex(0));
    assert_eq!(Color::from_hex_rep("#ffffff").unwrap(), Color::Hex(0xffffff));
    assert_eq!(Color::from_hex_rep("#09aF3c").unwrap(), Color::Hex(0x09af3c));
    assert_eq!(Color::from_hex_rep("###123456").unwrap(), Color::Hex(0x123456));
}

#[test]
fn from_hex_rep_rejects_a_short_text() {
    for rep in ["", "#", "##", "#12345", "12345", "#fff"] {
        assert!(matches!(Color::from_hex_rep(rep), Err(Error::StringTooShortOnConversion)), "{}", rep);
    }
}

#[test]
fn from_hex_rep_rejects_a_long_text() {
    for rep in ["#1234567", "1234567", "123456#", "#ffffffff", "#zzzzzzz", "#123456 "] {
        assert!(matches!(Color::from_hex_rep(rep), Err(Error::StringTooLongOnConversion)), "{}", rep);
    }
}

#[test]
fn from_hex_rep_rejects_what_is_no_digit() {
    for rep in [
        "#12345g", "#+12345", "#-12345", "#12 456", "12345G", "#1234/5", "#1234:5", "#1234@5",
        "#1234`5", "#12345#", "#1234#5",
    ] {
        assert!(matches!(Color::from_hex_rep(rep), Err(Error::IllegalCharOnConversion)), "{}", rep);
    }
}

#[test]
fn from_hex_rep_judges_the_length_in_bytes() {
    // Three characters of two bytes each: six bytes, none of them a digit.
    assert!(matches!(Color::from_hex_rep("#ééé"), Err(Error::IllegalCharOnConversion)));
    // Six characters, seven bytes.
    assert!(matches!(Color::from_hex_rep("#12345é"), Err(Error::StringTooLongOnConversion)));
    // Five characters, six bytes.
    assert!(matches!(Color::from_hex_rep("#1234é"), Err(Error::IllegalCharOnConversion)));
    // Four characters, five bytes.
    assert!(matches!(Color::from_hex_rep("#123é"), Err(Error::StringTooShortOnConversion)));
}

#[test]
fn hex_rep_reads_back() {
    for code in [0u32, 1, 0xabc, 0x00ff00, 0x123456, 0xffffff] {
        let c = Color::from_hex(code);
        assert_eq!(Color::from_hex_rep(&c.hex_rep()).unwrap(), c);
    }
    let c = Color::from_rgb((7, 8, 9));
    assert_eq!(Color::from_hex_rep(&c.hex_rep()).unwrap(), Color::Hex(c.hex()));
}

#[test]
fn what_is_read_writes_back_in_upper_case() {
    let c = Color::from_hex_rep("##a1b2c3").unwrap();
    assert_eq!(c.hex_rep(), "#A1B2C3");
    assert_eq!(Color::from_hex_rep(&c.hex_rep()).unwrap(), c);
}

#[test]
fn try_from_hex_checks_the_range() {
    assert_eq!(Color::try_from_hex(0).unwrap(), Color::Hex(0));
    assert_eq!(Color::try_from_hex(0xffffff).unwrap(), Color::Hex(0xffffff));
    assert!(matches!(Color::try_from_hex(0x1000000), Err(Error::ValueOutOf24BitRGBRange)));
    assert!(matches!(Color::try_from_hex(u32::MAX), Err(Error::ValueOutOf24BitRGBRange)));
}

#[test]
fn conversions_agree_with_the_constructors() {
    assert_eq!(Color::try_from(0x123456u32).unwrap(), Color::Hex(0x123456));
    assert!(matches!(Color::try_from(0x1000000u32), Err(Error::ValueOutOf24BitRGBRange)));
    assert_eq!(Color::try_from("#123456").unwrap(), Color::Hex(0x123456));
    assert!(matches!(Color::try_from("#12345"), Err(Error::StringTooShortOnConversion)));
    assert_eq!(Color::try_from(String::from("fedcba")).unwrap(), Color::Hex(0xfedcba));
    assert!(matches!(
        Color::try_from(String::from("#fedcbaa")),
        Err(Error::StringTooLongOnConversion)
    ));
    assert!(matches!(Color::try_from(String::from("#fedcbx")), Err(Error::IllegalCharOnConversion)));
    assert_eq!(Color::from((1u8, 2u8, 3u8)), Color::Rgb((1, 2, 3)));
    assert_eq!(Color::from((1u8, 2u8, 3u8, bits(7.0))), Color::Rgba((1, 2, 3, bits(1.0))));
    let c: Color = (4u8, 5u8, 6u8).into();
    assert_eq!(c, Color::Rgb((4, 5, 6)));
}

#[test]
fn an_integer_error_is_carried() {
    let e = u8::try_from(300u32).unwrap_err();
    assert!(matches!(Error::TryFromIntError(e), Error::TryFromIntError(_)));
    assert!(matches!(Error::EmptyStringOnConversion, Error::EmptyStringOnConversion));
}
