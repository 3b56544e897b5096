use vstd::prelude::*;

verus! {

/// The character for one digit value in base 10 or 16, lower case.
pub open spec fn digit_char(d: int) -> char {
    if d == 0 {
        '0'
    } else if d == 1 {
        '1'
    } else if d == 2 {
        '2'
    } else if d == 3 {
        '3'
    } else if d == 4 {
        '4'
    } else if d == 5 {
        '5'
    } else if d == 6 {
        '6'
    } else if d == 7 {
        '7'
    } else if d == 8 {
        '8'
    } else if d == 9 {
        '9'
    } else if d == 10 {
        'a'
    } else if d == 11 {
        'b'
    } else if d == 12 {
        'c'
    } else if d == 13 {
        'd'
    } else if d == 14 {
        'e'
    } else {
        'f'
    }
}

/// The decimal digits of a non-negative number, most significant first.
pub open spec fn dec_digits(n: int) -> Seq<char>
    decreases n,
{
    if n < 10 {
        seq![digit_char(n)]
    } else {
        dec_digits(n / 10) + seq![digit_char(n % 10)]
    }
}

/// The decimal rendering of a number, with a leading `-` when negative.
pub open spec fn dec_seq(n: int) -> Seq<char> {
    if n < 0 {
        seq!['-'] + dec_digits(-n)
    } else {
        dec_digits(n)
    }
}

/// The hexadecimal digits of a non-negative number, most significant first,
/// lower case.
pub open spec fn hex_digits(n: int) -> Seq<char>
    decreases n,
{
    if n < 16 {
        seq![digit_char(n)]
    } else {
        hex_digits(n / 16) + seq![digit_char(n % 16)]
    }
}

/// Hexadecimal digits padded with leading zeros to at least four places.
pub open spec fn hex4(n: int) -> Seq<char> {
    let d = hex_digits(n);
    if d.len() == 1 {
        seq!['0', '0', '0'] + d
    } else if d.len() == 2 {
        seq!['0', '0'] + d
    } else if d.len() == 3 {
        seq!['0'] + d
    } else {
        d
    }
}

/// Digits regrouped from the right in blocks of three, the blocks joined by
/// a thin space.
pub open spec fn grouped(s: Seq<char>) -> Seq<char>
    decreases s.len(),
{
    if s.len() <= 3 {
        s
    } else {
        grouped(s.subrange(0, s.len() - 3)) + seq!['\u{2009}'] + s.subrange(
            s.len() - 3,
            s.len() as int,
        )
    }
}

/// The code point the icon URL is derived from: the string's first
/// character, or the fallback mark when the string is empty.
pub open spec fn icon_code(s: Seq<char>) -> int {
    if s.len() == 0 {
        '\u{274c}' as int
    } else {
        s[0] as int
    }
}

/// The URL of the hosted emoji graphic for an icon string.
pub open spec fn icon_url_spec(s: Seq<char>) -> Seq<char> {
    "https://raw.githubusercontent.com/googlefonts/noto-emoji/main/svg/emoji_u"@ + hex4(
        icon_code(s),
    ) + ".svg"@
}

/// Append the character of one digit value.
fn append_digit(s: &mut String, d: u32)
    requires
        d < 16,
    ensures
        final(s)@ == old(s)@ + seq![digit_char(d as int)],
{
    let piece: &str = match d {
        0 => "0",
        1 => "1",
        2 => "2",
        3 => "3",
        4 => "4",
        5 => "5",
        6 => "6",
        7 => "7",
        8 => "8",
        9 => "9",
        10 => "a",
        11 => "b",
        12 => "c",
        13 => "d",
        14 => "e",
        _ => "f",
    };
    proof {
        reveal_strlit("0");
        reveal_strlit("1");
        reveal_strlit("2");
        reveal_strlit("3");
        reveal_strlit("4");
        reveal_strlit("5");
        reveal_strlit("6");
        reveal_strlit("7");
        reveal_strlit("8");
        reveal_strlit("9");
        reveal_strlit("a");
        reveal_strlit("b");
        reveal_strlit("c");
        reveal_strlit("d");
        reveal_strlit("e");
        reveal_strlit("f");
        assert(piece@ =~= seq![digit_char(d as int)]);
    }
    s.append(piece);
}

/// Append the decimal digits of `n`, most significant first.
pub(crate) fn push_dec_digits(s: &mut String, n: u64)
    ensures
        final(s)@ == old(s)@ + dec_digits(n as int),
    decreases n,
{
    if n >= 10 {
        push_dec_digits(s, n / 10);
        append_digit(s, (n % 10) as u32);
        proof {
            assert(final(s)@ =~= old(s)@ + dec_digits(n as int));
        }
    } else {
        append_digit(s, n as u32);
    }
}

/// Append the hexadecimal digits of `n`, most significant first.
fn push_hex_digits(s: &mut String, n: u32)
    ensures
        final(s)@ == old(s)@ + hex_digits(n as int),
    decreases n,
{
    if n >= 16 {
        push_hex_digits(s, n / 16);
        append_digit(s, n % 16);
        proof {
            assert(final(s)@ =~= old(s)@ + hex_digits(n as int));
        }
    } else {
        append_digit(s, n);
    }
}

/// The URL of the hosted emoji graphic for the icon's first character; an
/// empty icon string falls back to a cross mark.
pub fn icon_url(icon: &str) -> (r: String)
    ensures
        r@ == icon_url_spec(icon@),
{
    let c: char = if icon.unicode_len() == 0 {
        '\u{274c}'
    } else {
        icon.get_char(0)
    };
    let code: u32 = c as u32;
    let mut hex = String::new();
    push_hex_digits(&mut hex, code);
    let mut url = "https://raw.githubusercontent.com/googlefonts/noto-emoji/main/svg/emoji_u"
        .to_owned();
    let hex_len = hex.as_str().unicode_len();
    if hex_len == 1 {
        url.append("000");
    } else if hex_len == 2 {
        url.append("00");
    } else if hex_len == 3 {
        url.append("0");
    }
    proof {
        reveal_strlit("0");
        reveal_strlit("00");
        reveal_strlit("000");
        assert(url@ + hex@ =~= "https://raw.githubusercontent.com/googlefonts/noto-emoji/main/svg/emoji_u"@
            + hex4(icon_code(icon@)));
    }
    url.append(hex.as_str());
    url.append(".svg");
    proof {
        assert(url@ =~= icon_url_spec(icon@));
    }
    url
}

/// Regroup the characters of `s` from the right in blocks of three, joined
/// by a thin space.
fn group_thousands(s: &String) -> (r: String)
    ensures
        r@ == grouped(s@),
    decreases s@.len(),
{
    let n = s.as_str().unicode_len();
    if n <= 3 {
        s.clone()
    } else {
        let head = s.as_str().substring_char(0, n - 3).to_owned();
        let tail = s.as_str().substring_char(n - 3, n);
        let r = group_thousands(&head).concat("\u{2009}").concat(tail);
        proof {
            reveal_strlit("\u{2009}");
            assert(r@ =~= grouped(s@));
        }
        r
    }
}

/// Render a number in decimal with its digits grouped in threes from the
/// right, the groups joined by a thin space.
pub fn format_number(value: i64) -> (r: String)
    ensures
        r@ == grouped(dec_seq(value as int)),
{
    let mut digits = String::new();
    if value < 0 {
        digits.append("-");
        let magnitude: u64 = (-(value as i128)) as u64;
        push_dec_digits(&mut digits, magnitude);
        proof {
            reveal_strlit("-");
            assert(digits@ =~= dec_seq(value as int));
        }
    } else {
        push_dec_digits(&mut digits, value as u64);
    }
    group_thousands(&digits)
}

} // verus!
