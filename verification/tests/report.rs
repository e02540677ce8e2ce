use remora_interceptor::report::{format_response_line, push_decimal, slice_url};

#[test]
fn short_url_is_logged_unmodified() {
    assert_eq!(slice_url("http://example.org/", 100), "http://example.org/");
    assert_eq!(slice_url("", 100), "");
    let almost = "a".repeat(99);
    assert_eq!(slice_url(&almost, 100), almost);
}

#[test]
fn long_url_is_cut_to_the_budget() {
    let url = format!("http://example.org/{}", "p".repeat(200));
    let sliced = slice_url(&url, 100);
    assert_eq!(sliced.chars().count(), 100);
    assert_eq!(&sliced[..96], &url[..96]);
    assert_eq!(&sliced[96..], " ...");
}

#[test]
fn url_at_the_budget_is_cut() {
    let url = "0123456789".repeat(10);
    let sliced = slice_url(&url, 100);
    assert_eq!(sliced, format!("{} ...", &url[..96]));
    assert_eq!(sliced.chars().count(), 100);
}

#[test]
fn url_budget_counts_characters() {
    let url = "é".repeat(120);
    let sliced = slice_url(&url, 100);
    assert_eq!(sliced, format!("{} ...", "é".repeat(96)));
    assert_eq!(sliced.chars().count(), 100);
    let short = "é".repeat(99);
    assert_eq!(slice_url(&short, 100), short);
}

#[test]
fn smallest_budget_keeps_only_the_marker() {
    assert_eq!(slice_url("abcdef", 4), " ...");
    assert_eq!(slice_url("abcd", 4), " ...");
    assert_eq!(slice_url("abc", 4), "abc");
    assert_eq!(slice_url("abcdefgh", 6), "ab ...");
}

#[test]
fn slicing_twice_changes_nothing() {
    for url in ["", "short", &"q".repeat(100), &"q".repeat(101), &"ab".repeat(300)] {
        let once = slice_url(url, 100);
        assert_eq!(slice_url(&once, 100), once);
    }
}

#[test]
fn decimal_numerals() {
    let numeral = |number: u64| {
        let mut text = String::new();
        push_decimal(&mut text, number);
        text
    };
    assert_eq!(numeral(0), "0");
    assert_eq!(numeral(7), "7");
    assert_eq!(numeral(10), "10");
    assert_eq!(numeral(1234567890), "1234567890");
    assert_eq!(numeral(u64::MAX), "18446744073709551615");
    let mut text = "n=".to_string();
    push_decimal(&mut text, 305);
    assert_eq!(text, "n=305");
}

#[test]
fn response_line_has_counter_and_sliced_url() {
    assert_eq!(format_response_line(1, "http://example.org/", 100), "1: http://example.org/");
    assert_eq!(format_response_line(120, "abcdefghij", 8), "120: abcd ...");
    assert_eq!(format_response_line(0, "", 4), "0: ");
}
