//! Text primitives: numerals, comparison and concatenation.

use vstd::prelude::*;
use vstd::string::*;

verus! {

/// The character that writes the digit `d` in bases up to sixteen, upper case.
pub open spec fn digit_char(d: nat) -> char {
    if d == 0 {
        '0'
    } else if d == 1 {
        '1'
    } else if d == 2 {
        '2'
    } else if d == 3 {
        '3'
    } else if d == 4 {
        '4'
    } else if d == 5 {
        '5'
    } else if d == 6 {
        '6'
    } else if d == 7 {
        '7'
    } else if d == 8 {
        '8'
    } else if d == 9 {
        '9'
    } else if d == 10 {
        'A'
    } else if d == 11 {
        'B'
    } else if d == 12 {
        'C'
    } else if d == 13 {
        'D'
    } else if d == 14 {
        'E'
    } else {
        'F'
    }
}

/// The decimal numeral of `n`: no sign, no leading zero but for zero itself.
pub open spec fn decimal(n: nat) -> Seq<char>
    decreases n,
{
    if n < 10 {
        seq![digit_char(n)]
    } else {
        decimal(n / 10).push(digit_char(n % 10))
    }
}

/// The upper-case hexadecimal numeral of `n`, padded with zeros on the left
/// to at least `width` digits.
pub open spec fn hex_padded(n: nat, width: nat) -> Seq<char>
    decreases n, width,
{
    if n < 16 && width <= 1 {
        seq![digit_char(n)]
    } else {
        hex_padded(n / 16, if width == 0 { 0nat } else { (width - 1) as nat }).push(digit_char(n % 16))
    }
}

/// Whether a byte writes a hexadecimal digit, in either case.
pub open spec fn is_hex_digit(b: u8) -> bool {
    (0x30 <= b <= 0x39) || (0x41 <= b <= 0x46) || (0x61 <= b <= 0x66)
}

/// The value of the digit that a byte writes.
pub open spec fn hex_digit_value(b: u8) -> nat {
    if b <= 0x39 {
        (b - 0x30) as nat
    } else if b <= 0x46 {
        (b - 0x41 + 10) as nat
    } else {
        (b - 0x61 + 10) as nat
    }
}

/// The number that a row of hexadecimal digits writes, the first digit
/// weighing most.
pub open spec fn hex_value(b: Seq<u8>) -> nat
    decreases b.len(),
{
    if b.len() == 0 {
        0
    } else {
        hex_value(b.drop_last()) * 16 + hex_digit_value(b.last())
    }
}

/// Whether every byte of a row writes a hexadecimal digit.
pub open spec fn all_hex_digits(b: Seq<u8>) -> bool {
    forall|i: int| 0 <= i < b.len() ==> is_hex_digit(#[trigger] b[i])
}

/// Sixteen to the power of `n`.
pub open spec fn sixteen_to(n: nat) -> nat
    decreases n,
{
    if n == 0 {
        1
    } else {
        16 * sixteen_to((n - 1) as nat)
    }
}

/// The bytes of a text whose characters are all below 128.
pub open spec fn ascii_bytes(s: Seq<char>) -> Seq<u8> {
    Seq::new(s.len(), |i: int| s[i] as u8)
}

/// The number that a row of decimal digits writes, the first digit weighing
/// most.
pub open spec fn decimal_value(s: Seq<char>) -> nat
    decreases s.len(),
{
    if s.len() == 0 {
        0
    } else {
        decimal_value(s.drop_last()) * 10 + (s.last() as nat - '0' as nat) as nat
    }
}

/// A decimal numeral is made of decimal digits alone, begins with a zero
/// only where it writes zero, and reads back as the number it writes.
pub proof fn decimal_reads_back(n: nat)
    ensures
        decimal(n).len() >= 1,
        forall|i: int| 0 <= i < decimal(n).len() ==> '0' <= #[trigger] decimal(n)[i] <= '9',
        decimal(n)[0] == '0' <==> n == 0,
        decimal_value(decimal(n)) == n,
    decreases n,
{
    let s = decimal(n);
    if n < 10 {
        assert(s =~= seq![digit_char(n)]);
        assert(s.drop_last() =~= Seq::<char>::empty());
        assert(decimal_value(s) == decimal_value(s.drop_last()) * 10 + (s.last() as nat - '0' as nat) as nat);
    } else {
        let head = decimal(n / 10);
        decimal_reads_back(n / 10);
        assert(s =~= head.push(digit_char(n % 10)));
        assert(s.drop_last() =~= head);
        assert(s[0] == head[0]);
        assert forall|i: int| 0 <= i < s.len() implies '0' <= #[trigger] s[i] <= '9' by {
            if i < head.len() {
                assert(s[i] == head[i]);
            }
        }
        assert(decimal_value(s) == decimal_value(s.drop_last()) * 10 + (s.last() as nat - '0' as nat) as nat);
    }
}

/// A greater power of sixteen is not smaller.
pub proof fn sixteen_to_grows(a: nat, b: nat)
    requires
        a <= b,
    ensures
        sixteen_to(a) <= sixteen_to(b),
    decreases b,
{
    if a < b {
        sixteen_to_grows(a, (b - 1) as nat);
    }
}

/// A row of hexadecimal digits writes a number below sixteen to the power of
/// its length.
pub proof fn hex_value_bound(b: Seq<u8>)
    requires
        all_hex_digits(b),
    ensures
        hex_value(b) < sixteen_to(b.len()),
    decreases b.len(),
{
    if b.len() > 0 {
        assert(all_hex_digits(b.drop_last())) by {
            assert forall|i: int| 0 <= i < b.drop_last().len() implies is_hex_digit(
                #[trigger] b.drop_last()[i],
            ) by {
                assert(b.drop_last()[i] == b[i]);
            }
        }
        hex_value_bound(b.drop_last());
        assert(is_hex_digit(b.last()));
        assert(sixteen_to(b.len()) == 16 * sixteen_to((b.len() - 1) as nat));
    }
}

/// A padded hexadecimal numeral of a number that fits its width has exactly
/// that many characters, all of them plain digits, and reads back as the
/// number.
pub proof fn hex_padded_reads_back(n: nat, width: nat)
    requires
        width >= 1,
        n < sixteen_to(width),
    ensures
        hex_padded(n, width).len() == width,
        vstd::utf8::is_ascii_chars(hex_padded(n, width)),
        all_hex_digits(ascii_bytes(hex_padded(n, width))),
        hex_value(ascii_bytes(hex_padded(n, width))) == n,
    decreases width,
{
    let s = hex_padded(n, width);
    let b = ascii_bytes(s);
    if width == 1 {
        assert(sixteen_to(1) == 16) by {
            reveal_with_fuel(sixteen_to, 3);
        }
        assert(s =~= seq![digit_char(n)]);
        assert(b =~= seq![digit_char(n) as u8]);
        assert(b.drop_last() =~= Seq::<u8>::empty());
        assert(hex_value(b) == hex_value(b.drop_last()) * 16 + hex_digit_value(b.last()));
    } else {
        let head = hex_padded(n / 16, (width - 1) as nat);
        assert(sixteen_to(width) == 16 * sixteen_to((width - 1) as nat));
        hex_padded_reads_back(n / 16, (width - 1) as nat);
        assert(s =~= head.push(digit_char(n % 16)));
        assert(b.drop_last() =~= ascii_bytes(head));
        assert(b.last() == digit_char(n % 16) as u8);
        assert forall|i: int| 0 <= i < b.len() implies is_hex_digit(#[trigger] b[i]) by {
            if i < b.len() - 1 {
                assert(b[i] == ascii_bytes(head)[i]);
            }
        }
        assert(hex_value(b) == hex_value(b.drop_last()) * 16 + hex_digit_value(b.last()));
    }
}

/// The one-character text of a digit below sixteen.
pub fn digit_text(d: u8) -> (t: &'static str)
    requires
        d < 16,
    ensures
        t@ == seq![digit_char(d as nat)],
{
    proof {
        reveal_strlit("0");
        reveal_strlit("1");
        reveal_strlit("2");
        reveal_strlit("3");
        reveal_strlit("4");
        reveal_strlit("5");
        reveal_strlit("6");
        reveal_strlit("7");
        reveal_strlit("8");
        reveal_strlit("9");
        reveal_strlit("A");
        reveal_strlit("B");
        reveal_strlit("C");
        reveal_strlit("D");
        reveal_strlit("E");
        reveal_strlit("F");
    }
    let t: &'static str = match d {
        0 => "0",
        1 => "1",
        2 => "2",
        3 => "3",
        4 => "4",
        5 => "5",
        6 => "6",
        7 => "7",
        8 => "8",
        9 => "9",
        10 => "A",
        11 => "B",
        12 => "C",
        13 => "D",
        14 => "E",
        _ => "F",
    };
    assert(t@ =~= seq![digit_char(d as nat)]);
    t
}

/// Appends the decimal numeral of `n` to `out`.
pub fn push_decimal(out: &mut String, n: u128)
    ensures
        final(out)@ == old(out)@ + decimal(n as nat),
    decreases n,
{
    if n >= 10 {
        push_decimal(out, n / 10);
    }
    let d: u8 = (n % 10) as u8;
    out.append(digit_text(d));
    assert(final(out)@ =~= old(out)@ + decimal(n as nat));
}

/// Appends the hexadecimal numeral of `n`, in upper case and at least `width`
/// digits wide, to `out`.
pub fn push_hex_padded(out: &mut String, n: u32, width: u8)
    ensures
        final(out)@ == old(out)@ + hex_padded(n as nat, width as nat),
    decreases n, width,
{
    if n >= 16 || width > 1 {
        push_hex_padded(out, n / 16, if width == 0 { 0 } else { width - 1 });
    }
    let d: u8 = (n % 16) as u8;
    out.append(digit_text(d));
    assert(final(out)@ =~= old(out)@ + hex_padded(n as nat, width as nat));
}

/// Whether two texts hold the same characters.
pub fn same_text(a: &str, b: &str) -> (same: bool)
    ensures
        same == (a@ == b@),
{
    let x = a.as_bytes();
    let y = b.as_bytes();
    proof {
        vstd::utf8::encode_utf8_decode_utf8(a@);
        vstd::utf8::encode_utf8_decode_utf8(b@);
    }
    if x.len() != y.len() {
        return false;
    }
    let mut i: usize = 0;
    while i < x.len()
        invariant
            i <= x.len(),
            x.len() == y.len(),
            x@ == a.spec_bytes(),
            y@ == b.spec_bytes(),
            x@.subrange(0, i as int) == y@.subrange(0, i as int),
        decreases x.len() - i,
    {
        if x[i] != y[i] {
            assert(x@[i as int] != y@[i as int]);
            return false;
        }
        proof {
            assert(x@.subrange(0, i + 1) =~= x@.subrange(0, i as int).push(x@[i as int]));
            assert(y@.subrange(0, i + 1) =~= y@.subrange(0, i as int).push(y@[i as int]));
        }
        i += 1;
    }
    proof {
        assert(x@ =~= x@.subrange(0, i as int));
        assert(y@ =~= y@.subrange(0, i as int));
    }
    true
}

/// The parts of a list written one after another, with `sep` between each
/// two of them.
pub open spec fn joined(parts: Seq<Seq<char>>, sep: Seq<char>) -> Seq<char>
    decreases parts.len(),
{
    if parts.len() == 0 {
        Seq::empty()
    } else if parts.len() == 1 {
        parts[0]
    } else {
        joined(parts.drop_last(), sep) + sep + parts.last()
    }
}

/// The characters of each text of a list.
pub open spec fn views(parts: Seq<String>) -> Seq<Seq<char>> {
    parts.map_values(|s: String| s@)
}

/// What joining is for a list that has grown by one part.
pub proof fn joined_step(parts: Seq<Seq<char>>, sep: Seq<char>, i: int)
    requires
        0 <= i < parts.len(),
    ensures
        joined(parts.subrange(0, i + 1), sep) == if i == 0 {
            parts[0]
        } else {
            joined(parts.subrange(0, i), sep) + sep + parts[i]
        },
{
    let grown = parts.subrange(0, i + 1);
    assert(grown.last() == parts[i]);
    assert(grown.drop_last() =~= parts.subrange(0, i));
}

/// Appends the texts of a list to `out`, with `sep` between each two.
pub fn push_joined(out: &mut String, parts: &Vec<String>, sep: &str)
    ensures
        final(out)@ == old(out)@ + joined(views(parts@), sep@),
{
    let ghost all = views(parts@);
    let mut i: usize = 0;
    assert(old(out)@ + joined(all.subrange(0, 0), sep@) =~= old(out)@);
    while i < parts.len()
        invariant
            i <= parts.len(),
            all == views(parts@),
            out@ == old(out)@ + joined(all.subrange(0, i as int), sep@),
        decreases parts.len() - i,
    {
        let ghost before = out@;
        if i > 0 {
            out.append(sep);
        }
        out.append(parts[i].as_str());
        proof {
            joined_step(all, sep@, i as int);
            assert(all[i as int] == parts@[i as int]@);
            assert(out@ =~= old(out)@ + joined(all.subrange(0, i + 1), sep@));
        }
        i += 1;
    }
    assert(all.subrange(0, i as int) =~= all);
}

} // verus!
