use edwloef_plugins::text::{display_text, number_text, white_space, Unit};

fn chars(s: &str) -> Vec<char> {
    s.chars().collect()
}

fn number(s: &str, unit: Unit) -> String {
    number_text(&chars(s), unit).into_iter().collect()
}

fn shown(s: &str, unit: Unit) -> String {
    display_text(&chars(s), unit).into_iter().collect()
}

#[test]
fn decibels_cut_after_space() {
    assert_eq!(number("3 dB", Unit::Decibels), "3");
    assert_eq!(number("-1.5 dB", Unit::Decibels), "-1.5");
}

#[test]
fn decibels_cut_without_space_and_any_case() {
    assert_eq!(number("3dB", Unit::Decibels), "3");
    assert_eq!(number("3 DB", Unit::Decibels), "3");
    assert_eq!(number("3 db", Unit::Decibels), "3");
}

#[test]
fn decibels_kept_when_text_has_outer_space() {
    assert_eq!(number(" 3 dB", Unit::Decibels), "3 dB");
    assert_eq!(number("3 dB ", Unit::Decibels), "3 dB");
}

#[test]
fn decibels_bare_number() {
    assert_eq!(number("-12", Unit::Decibels), "-12");
    assert_eq!(number("  7.25  ", Unit::Decibels), "7.25");
}

#[test]
fn short_texts_are_not_split() {
    assert_eq!(number("5", Unit::Decibels), "5");
    assert_eq!(number("", Unit::Decibels), "");
    assert_eq!(number("B", Unit::Decibels), "B");
}

#[test]
fn split_point_counts_bytes() {
    // "é" takes two bytes: the split two bytes before the end falls before "é",
    // whose one character is not the unit
    assert_eq!(number("1é", Unit::Decibels), "1é");
    // "ä" takes two bytes, so the split falls just before "dB"
    assert_eq!(number("ädB", Unit::Decibels), "ä");
    // a two-byte character that is not the unit
    assert_eq!(number("1\u{e9}\u{e9}", Unit::Decibels), "1\u{e9}\u{e9}");
}

#[test]
fn other_unit_is_not_cut() {
    assert_eq!(number("3 ms", Unit::Decibels), "3 ms");
    assert_eq!(number("3 dB", Unit::Millis), "3 dB");
}

#[test]
fn milliseconds_cut() {
    assert_eq!(number("20 ms", Unit::Millis), "20");
    assert_eq!(number("20MS", Unit::Millis), "20");
    assert_eq!(number("100", Unit::Millis), "100");
}

#[test]
fn percent_cut_from_trimmed_text() {
    assert_eq!(number("50%", Unit::Percent), "50");
    assert_eq!(number(" 50 % ", Unit::Percent), "50");
    assert_eq!(number("50", Unit::Percent), "50");
    assert_eq!(number("%", Unit::Percent), "");
    assert_eq!(number("5%%", Unit::Percent), "5%");
}

#[test]
fn bare_number_is_trimmed() {
    assert_eq!(number(" 2.5 ", Unit::Bare), "2.5");
    assert_eq!(number("\u{3000}7\u{a0}", Unit::Bare), "7");
    assert_eq!(number("4 dB", Unit::Bare), "4 dB");
}

#[test]
fn white_space_is_unicode_white_space() {
    for c in [' ', '\t', '\n', '\r', '\u{b}', '\u{c}', '\u{85}', '\u{a0}', '\u{1680}', '\u{2000}',
        '\u{200a}', '\u{2028}', '\u{2029}', '\u{202f}', '\u{205f}', '\u{3000}']
    {
        assert!(white_space(c), "{:?}", c);
        assert!(c.is_whitespace());
    }
    for c in ['a', '0', '\u{200b}', '\u{180e}', '\u{feff}', '%'] {
        assert!(!white_space(c), "{:?}", c);
        assert!(!c.is_whitespace());
    }
}

#[test]
fn trimmed_agrees_with_str_trim() {
    for s in ["", "  ", " a b ", "\u{3000}x\u{2029}", "abc", "\ta\n"] {
        assert_eq!(number(s, Unit::Bare), s.trim());
    }
}

#[test]
fn display_adds_unit() {
    assert_eq!(shown("1.5", Unit::Decibels), "1.5 dB");
    assert_eq!(shown("20.0", Unit::Millis), "20.0 ms");
    assert_eq!(shown("50", Unit::Percent), "50%");
    assert_eq!(shown("6.0", Unit::Bare), "6.0");
}

#[test]
fn shown_text_reads_back() {
    for n in ["1.5", "-12.0", "0", "NaN", "inf"] {
        for unit in [Unit::Bare, Unit::Decibels, Unit::Millis, Unit::Percent] {
            let d = display_text(&chars(n), unit);
            let back: String = number_text(&d, unit).into_iter().collect();
            assert_eq!(back, n);
        }
    }
}
