use langconfig::catalog::supported_language_codes;

#[test]
fn lists_codes_in_line_order() {
    assert_eq!(supported_language_codes("en\nde\nes"), vec!["en", "de", "es"]);
}

#[test]
fn final_line_ending_is_optional() {
    assert_eq!(supported_language_codes("en\nde\nes\n"), vec!["en", "de", "es"]);
}

#[test]
fn empty_catalog_has_no_codes() {
    assert_eq!(supported_language_codes(""), Vec::<&str>::new());
}

#[test]
fn single_line_feed_is_one_empty_line() {
    assert_eq!(supported_language_codes("\n"), vec![""]);
}

#[test]
fn blank_lines_are_kept() {
    assert_eq!(supported_language_codes("en\n\nde\n\n"), vec!["en", "", "de", ""]);
}

#[test]
fn duplicate_lines_are_kept() {
    assert_eq!(supported_language_codes("en\nen\nde"), vec!["en", "en", "de"]);
}

#[test]
fn carriage_return_before_line_feed_is_dropped() {
    assert_eq!(supported_language_codes("en\r\nde\r\nes\r\n"), vec!["en", "de", "es"]);
}

#[test]
fn only_one_carriage_return_is_dropped() {
    assert_eq!(supported_language_codes("en\r\r\nde"), vec!["en\r", "de"]);
}

#[test]
fn lone_carriage_return_does_not_split() {
    assert_eq!(supported_language_codes("en\rde\nes"), vec!["en\rde", "es"]);
}

#[test]
fn carriage_return_at_the_very_end_stays() {
    assert_eq!(supported_language_codes("en\nde\r"), vec!["en", "de\r"]);
}

#[test]
fn carriage_return_and_line_feed_alone() {
    assert_eq!(supported_language_codes("\r\n"), vec![""]);
}

#[test]
fn lines_may_hold_any_characters() {
    assert_eq!(supported_language_codes("zh\n日本語\nürü\n"), vec!["zh", "日本語", "ürü"]);
}

#[test]
fn agrees_with_the_lines_of_std() {
    let texts = [
        "", "\n", "\r", "\r\n", "a", "a\n", "a\r", "a\r\n", "\na", "\n\n", "a\n\nb", "a\r\n\r\nb\r",
        "\r\r\n\r", "é\nß\r\n\n", "en\nde\nes",
    ];
    for text in texts {
        let expected: Vec<&str> = text.lines().collect();
        assert_eq!(supported_language_codes(text), expected);
    }
}

#[test]
fn repeated_calls_give_the_same_codes() {
    let text = "en\nde\r\nes\n";
    let first = supported_language_codes(text);
    let second = supported_language_codes(text);
    assert_eq!(first, second);
    assert_eq!(first, vec!["en", "de", "es"]);
}
