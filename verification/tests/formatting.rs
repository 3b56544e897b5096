use tgdigest::card::Card;
use tgdigest::util::{format_number, icon_url};

#[test]
fn icon_url_of_common_emoji() {
    assert_eq!(
        icon_url("\u{1f4ac}"),
        "https://raw.githubusercontent.com/googlefonts/noto-emoji/main/svg/emoji_u1f4ac.svg"
    );
    assert_eq!(
        icon_url("\u{1f44f}"),
        "https://raw.githubusercontent.com/googlefonts/noto-emoji/main/svg/emoji_u1f44f.svg"
    );
}

#[test]
fn icon_url_uses_only_the_first_character() {
    // The warning sign carries a variation selector; only U+26A0 counts.
    assert_eq!(
        icon_url("\u{26a0}\u{fe0f}"),
        "https://raw.githubusercontent.com/googlefonts/noto-emoji/main/svg/emoji_u26a0.svg"
    );
}

#[test]
fn icon_url_pads_short_code_points() {
    assert_eq!(
        icon_url("A"),
        "https://raw.githubusercontent.com/googlefonts/noto-emoji/main/svg/emoji_u0041.svg"
    );
}

#[test]
fn icon_url_of_empty_string_falls_back_to_cross_mark() {
    assert_eq!(
        icon_url(""),
        "https://raw.githubusercontent.com/googlefonts/noto-emoji/main/svg/emoji_u274c.svg"
    );
}

#[test]
fn default_card_is_the_sentinel() {
    let c = Card::default();
    assert_eq!(c.id, -1);
    assert_eq!(c.count, None);
    assert_eq!(c.header, "UNDEFINED");
    assert_eq!(
        c.icon,
        "https://raw.githubusercontent.com/googlefonts/noto-emoji/main/svg/emoji_u26a0.svg"
    );
    assert_eq!(c.filter, "");
}

#[test]
fn format_number_groups_digits_in_threes() {
    assert_eq!(format_number(0), "0");
    assert_eq!(format_number(7), "7");
    assert_eq!(format_number(100), "100");
    assert_eq!(format_number(999), "999");
    assert_eq!(format_number(1000), "1\u{2009}000");
    assert_eq!(format_number(1234), "1\u{2009}234");
    assert_eq!(format_number(123456), "123\u{2009}456");
    assert_eq!(format_number(1234567), "1\u{2009}234\u{2009}567");
}

#[test]
fn format_number_keeps_the_sign_in_the_grouping() {
    // The minus sign counts as a character of the leftmost group, exactly as
    // the digits do.
    assert_eq!(format_number(-1), "-1");
    assert_eq!(format_number(-12), "-12");
    assert_eq!(format_number(-123), "-\u{2009}123");
    assert_eq!(format_number(-1234), "-1\u{2009}234");
    assert_eq!(format_number(-123456), "-\u{2009}123\u{2009}456");
}

#[test]
fn format_number_extremes() {
    assert_eq!(
        format_number(i64::MAX),
        "9\u{2009}223\u{2009}372\u{2009}036\u{2009}854\u{2009}775\u{2009}807"
    );
    assert_eq!(
        format_number(i64::MIN),
        "-9\u{2009}223\u{2009}372\u{2009}036\u{2009}854\u{2009}775\u{2009}808"
    );
}
