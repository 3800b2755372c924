use scholar_scraper::text::{decimal_text, parse_usize, thread_count_from_input, trim_text};

#[test]
fn trim_removes_outer_whitespace_only() {
    assert_eq!(trim_text("  Jane  Doe \n"), "Jane  Doe");
    assert_eq!(trim_text("\u{a0}\u{2003}x\u{3000}"), "x");
    assert_eq!(trim_text("   "), "");
    assert_eq!(trim_text(""), "");
    assert_eq!(trim_text("none"), "none");
}

#[test]
fn trim_matches_std_trim() {
    for s in ["\t a b \r\n", "\u{85}z\u{2028}", " \u{200b}x ", "é ", "\u{1680}\u{1680}"] {
        assert_eq!(trim_text(s), s.trim());
    }
}

#[test]
fn trim_is_idempotent() {
    let once = trim_text(" \t value \n");
    assert_eq!(trim_text(&once), once);
}

#[test]
fn decimal_text_matches_to_string() {
    for n in [0usize, 7, 10, 99, 100, 12345, usize::MAX] {
        assert_eq!(decimal_text(n), n.to_string());
    }
}

#[test]
fn parse_usize_matches_std_parse() {
    for s in ["0", "42", "+42", "", "+", "-1", "4 2", "12a", "007", "18446744073709551615", "18446744073709551616", "٣"] {
        assert_eq!(parse_usize(s), s.parse::<usize>().ok(), "input {:?}", s);
    }
}

#[test]
fn parse_reads_back_decimal_text() {
    for n in [0usize, 5, 100, 987654321, usize::MAX] {
        assert_eq!(parse_usize(&decimal_text(n)), Some(n));
    }
}

#[test]
fn thread_count_defaults_to_ten() {
    assert_eq!(thread_count_from_input("4\n"), 4);
    assert_eq!(thread_count_from_input("  16  \r\n"), 16);
    assert_eq!(thread_count_from_input("\n"), 10);
    assert_eq!(thread_count_from_input("many"), 10);
    assert_eq!(thread_count_from_input("-3"), 10);
    assert_eq!(thread_count_from_input("0"), 0);
}
