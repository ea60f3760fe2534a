use lab_tools_client::numeral::decimal_string;
use lab_tools_client::text::{char_is_white_space, str_eq, trim};

#[test]
fn decimal_of_zero() {
    assert_eq!(decimal_string(0), "0");
}

#[test]
fn decimal_of_single_digits() {
    let expected = ["0", "1", "2", "3", "4", "5", "6", "7", "8", "9"];
    for (n, text) in expected.iter().enumerate() {
        assert_eq!(decimal_string(n as i64), *text);
    }
}

#[test]
fn decimal_of_positive_numbers() {
    assert_eq!(decimal_string(10), "10");
    assert_eq!(decimal_string(42), "42");
    assert_eq!(decimal_string(120), "120");
    assert_eq!(decimal_string(1_000_000), "1000000");
    assert_eq!(decimal_string(9_007_199_254_740_993), "9007199254740993");
}

#[test]
fn decimal_of_negative_numbers() {
    assert_eq!(decimal_string(-1), "-1");
    assert_eq!(decimal_string(-10), "-10");
    assert_eq!(decimal_string(-2_147_483_648), "-2147483648");
}

#[test]
fn decimal_of_the_extremes() {
    assert_eq!(decimal_string(i64::MAX), "9223372036854775807");
    assert_eq!(decimal_string(i64::MIN), "-9223372036854775808");
}

#[test]
fn decimal_agrees_with_std_around_zero_and_powers_of_ten() {
    for n in -2_000i64..=2_000 {
        assert_eq!(decimal_string(n), n.to_string());
    }
    let mut power: i64 = 1;
    for _ in 0..18 {
        power *= 10;
        for delta in -1i64..=1 {
            assert_eq!(decimal_string(power + delta), (power + delta).to_string());
            assert_eq!(decimal_string(-power + delta), (-power + delta).to_string());
        }
    }
}

#[test]
fn str_eq_on_equal_strings() {
    assert!(str_eq("", ""));
    assert!(str_eq("exit", "exit"));
    assert!(str_eq("gr\u{fc}\u{df}e \u{1f52c}", "gr\u{fc}\u{df}e \u{1f52c}"));
}

#[test]
fn str_eq_on_different_strings() {
    assert!(!str_eq("exit", "quit"));
    assert!(!str_eq("exit", "exit "));
    assert!(!str_eq("exit", "exi"));
    assert!(!str_eq("", "a"));
    assert!(!str_eq("a", ""));
    assert!(!str_eq("Exit", "exit"));
    assert!(!str_eq("\u{e9}", "e\u{301}"));
}

#[test]
fn white_space_is_the_twenty_five_characters() {
    let listed = [
        '\u{9}', '\u{a}', '\u{b}', '\u{c}', '\u{d}', ' ', '\u{85}', '\u{a0}', '\u{1680}',
        '\u{2000}', '\u{2001}', '\u{2002}', '\u{2003}', '\u{2004}', '\u{2005}', '\u{2006}',
        '\u{2007}', '\u{2008}', '\u{2009}', '\u{200a}', '\u{2028}', '\u{2029}', '\u{202f}',
        '\u{205f}', '\u{3000}',
    ];
    assert_eq!(listed.len(), 25);
    for c in listed {
        assert!(char_is_white_space(c));
    }
    for c in ['a', '0', '_', '\u{0}', '\u{8}', '\u{e}', '\u{1f}', '!', '\u{84}', '\u{86}',
        '\u{200b}', '\u{feff}', '\u{180e}', '\u{2060}', '\u{10ffff}']
    {
        assert!(!char_is_white_space(c));
    }
}

#[test]
fn white_space_agrees_with_std_on_every_character() {
    let mut count = 0;
    for code in 0u32..=0x10ffff {
        if let Some(c) = char::from_u32(code) {
            assert_eq!(char_is_white_space(c), c.is_whitespace());
            if char_is_white_space(c) {
                count += 1;
            }
        }
    }
    assert_eq!(count, 25);
}

#[test]
fn trim_removes_both_ends() {
    assert_eq!(trim("  print(1)  "), "print(1)");
    assert_eq!(trim("print(1)\n"), "print(1)");
    assert_eq!(trim("\t\r\n x = 1\r\n"), "x = 1");
    assert_eq!(trim("exit\n"), "exit");
}

#[test]
fn trim_keeps_inner_white_space() {
    assert_eq!(trim("  a  b\tc  "), "a  b\tc");
    assert_eq!(trim("a\nb"), "a\nb");
}

#[test]
fn trim_of_blank_strings_is_empty() {
    assert_eq!(trim(""), "");
    assert_eq!(trim(" "), "");
    assert_eq!(trim("\n"), "");
    assert_eq!(trim(" \t\r\n\u{a0}\u{3000} "), "");
}

#[test]
fn trim_leaves_trimmed_strings_alone() {
    assert_eq!(trim("x"), "x");
    assert_eq!(trim("print('a b')"), "print('a b')");
}

#[test]
fn trim_counts_characters_not_bytes() {
    assert_eq!(trim("\u{2003}\u{e9}t\u{e9} \u{1f52c}\u{a0}"), "\u{e9}t\u{e9} \u{1f52c}");
    assert_eq!(trim("\u{3000}\u{65e5}\u{672c}\u{8a9e}\u{3000}"), "\u{65e5}\u{672c}\u{8a9e}");
}

#[test]
fn trim_agrees_with_std() {
    let samples = [
        "",
        " ",
        "a",
        " a",
        "a ",
        " a ",
        "\u{85}x\u{85}",
        "\u{1680}x y\u{2028}\u{2029}",
        "\u{200b}x\u{200b}",
        "\u{feff} x",
        "  \u{202f}\u{205f}  ",
        "line one\nline two\n",
        "\u{b}\u{c}mid\u{b}\u{c}",
    ];
    for s in samples {
        assert_eq!(trim(s), s.trim());
    }
}

#[test]
fn trim_twice_is_trim_once() {
    for s in ["  a b  ", "\n\n", "x", " \u{a0}y\u{a0} "] {
        assert_eq!(trim(trim(s)), trim(s));
    }
}
