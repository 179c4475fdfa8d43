use modbot::text::{after_first_word, decimal_i64, decimal_u64, escape, is_white_space_char, trimmed_part};

#[test]
fn white_space_matches_std_for_every_char() {
    for n in 0u32..=0x10ffff {
        if let Some(c) = char::from_u32(n) {
            assert_eq!(is_white_space_char(c), c.is_whitespace(), "U+{:04X}", n);
        }
    }
}

#[test]
fn trimmed_part_matches_str_trim() {
    let samples = [
        "",
        "   ",
        " a ",
        "\u{3000}спам\u{00a0}",
        "\tmixed  inner  space\n",
        "x",
        "\u{2028}\u{2029}",
    ];
    for s in samples {
        let n = s.chars().count();
        assert_eq!(trimmed_part(s, 0, n), s.trim(), "{:?}", s);
    }
    assert_eq!(trimmed_part("ab  cd  ef", 2, 8), "cd");
}

#[test]
fn after_first_word_takes_the_rest() {
    assert_eq!(after_first_word("/ban spam in chat"), Some("spam in chat".to_string()));
    assert_eq!(after_first_word("/ban   реклама  "), Some("реклама".to_string()));
    assert_eq!(after_first_word("/ban"), None);
    assert_eq!(after_first_word("/ban    "), None);
    assert_eq!(after_first_word("/ban\nflood"), Some("flood".to_string()));
    assert_eq!(after_first_word(""), None);
}

#[test]
fn escape_matches_teloxide() {
    let samples = ["", "plain", "<b>bold</b>", "Tom & Jerry", "a<b>c&d>e", "Иван <админ>", "&amp;"];
    for s in samples {
        assert_eq!(escape(s), teloxide::utils::html::escape(s), "{:?}", s);
    }
    assert_eq!(escape("<script>"), "&lt;script&gt;");
}

#[test]
fn decimals_match_to_string() {
    for n in [0u64, 7, 9, 10, 42, 100, 12345, u64::MAX, 1 << 63] {
        assert_eq!(decimal_u64(n), n.to_string());
    }
    for n in [0i64, -1, 5, -6, 3600, i64::MIN, i64::MAX, -1000000007] {
        assert_eq!(decimal_i64(n), n.to_string());
    }
}
