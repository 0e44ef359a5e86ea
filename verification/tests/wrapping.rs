//! Text on screen: words, lines, names and numbers.
use punktfunk_webos::about::AboutText;
use punktfunk_webos::sendlogs::{
    frame, is_truncated, log_bundle, log_url, no_agent_status, readable_tail, unread_status, upload_status, CONTENT_TYPE,
    MAX_LOG_BYTES, NO_LOGS, TRUNCATED,
};
use punktfunk_webos::model::LibraryError;
use punktfunk_webos::text::{
    chars_le, chars_of, copy_texts, decimal_text, erase, find_text, has_text, is_text, join2, join3, same_text,
    same_texts, trim, type_char,
};
use punktfunk_webos::wrapping::{words_of, wrap, wrap_document, wrap_words};

/// A measure in which every character is ten pixels wide.
fn narrower(width: usize) -> impl Fn(&str) -> bool {
    move |line: &str| line.chars().count() * 10 <= width
}

#[test]
fn wrap_breaks_on_words_and_never_loses_one() {
    let text = "Alpha will be removed from this TV. You can pair with it again later.";
    let fits = narrower(220);
    let lines = wrap(text, &fits);
    assert!(lines.len() > 1, "{lines:?}");
    assert_eq!(lines.join(" "), text);
    for l in &lines {
        assert!(l.chars().count() * 10 <= 220 || !l.contains(' '), "{l}");
    }
    assert_eq!(wrap("", &narrower(100)), vec![String::new()]);
}

#[test]
fn short_lines_pass_unmeasured_and_long_ones_wrap() {
    let long = "word ".repeat(120);
    let doc = wrap_document(&vec!["short".to_string(), String::new(), long], 40, narrower(400));
    assert_eq!(doc[0], "short");
    assert_eq!(doc[1], "");
    assert!(doc.len() > 5, "{} lines", doc.len());
}

#[test]
fn a_word_wider_than_the_line_stands_alone() {
    let lines = wrap("a incomprehensibilities b", &narrower(100));
    assert_eq!(lines, vec!["a", "incomprehensibilities", "b"]);
}

#[test]
fn a_safe_line_is_not_measured() {
    let doc = wrap_document(&vec!["four words of text".to_string()], 18, |_: &str| false);
    assert_eq!(doc, vec!["four words of text"]);
    let doc = wrap_document(&vec!["four words of text".to_string()], 17, |_: &str| false);
    assert_eq!(doc, vec!["four", "words", "of", "text"]);
}

#[test]
fn words_are_split_at_any_white_space() {
    assert_eq!(words_of(" one\ttwo\u{a0}three \n"), vec!["one", "two", "three"]);
    assert!(words_of(" \t ").is_empty());
}

#[test]
fn texts_are_compared_by_their_characters() {
    assert!(same_text("Größe", "Größe"));
    assert!(!same_text("a", "ab"));
    assert!(is_text(&Some("a".to_string()), "a"));
    assert!(!is_text(&None, "a"));
    let v = vec!["x".to_string(), "y".to_string(), "x".to_string()];
    assert_eq!(find_text(&v, "x"), Some(0));
    assert_eq!(find_text(&v, "z"), None);
    assert!(has_text(&v, "y") && !has_text(&v, ""));
    assert!(same_texts(&v, &copy_texts(&v)));
    assert!(!same_texts(&v, &vec!["x".to_string(), "y".to_string()]));
}

#[test]
fn characters_order_a_prefix_first() {
    assert_eq!(chars_of("né"), vec!['n', 'é']);
    assert!(chars_le(&chars_of("ab"), &chars_of("abc")));
    assert!(!chars_le(&chars_of("abc"), &chars_of("ab")));
    assert!(chars_le(&chars_of("abc"), &chars_of("abd")));
    assert!(!chars_le(&chars_of("b"), &chars_of("abd")));
    assert!(chars_le(&chars_of("same"), &chars_of("same")));
}

#[test]
fn a_name_is_trimmed_at_both_ends_only() {
    assert_eq!(trim("  Couch \u{2003}co-op\t"), "Couch \u{2003}co-op");
    assert_eq!(trim(" \u{3000} "), "");
}

#[test]
fn numbers_are_written_in_decimal() {
    assert_eq!(decimal_text(0), "0");
    assert_eq!(decimal_text(9777), "9777");
    assert_eq!(decimal_text(u128::MAX), "340282366920938463463374607431768211455");
}

#[test]
fn pieces_are_joined_in_order() {
    assert_eq!(join2("Portal", " 2"), "Portal 2");
    assert_eq!(join3("a", "", "c"), "ac");
}

#[test]
fn typing_stops_at_the_limit_and_erasing_at_nothing() {
    let mut s = String::new();
    type_char(&mut s, 'ß', 2);
    type_char(&mut s, 'x', 2);
    type_char(&mut s, 'y', 2);
    assert_eq!(s, "ßx");
    assert!(erase(&mut s));
    assert!(erase(&mut s));
    assert_eq!(s, "");
    assert!(!erase(&mut s));
}

#[test]
fn a_log_tail_starts_on_a_whole_line() {
    assert!(!is_truncated(MAX_LOG_BYTES));
    assert!(is_truncated(MAX_LOG_BYTES + 1));
    let cut = b"lf a line\nsecond\nthird\n".to_vec();
    assert_eq!(readable_tail(&cut, true), Some(format!("{TRUNCATED}second\nthird\n")));
    assert_eq!(readable_tail(&cut, false), Some("lf a line\nsecond\nthird\n".to_string()));
    assert_eq!(readable_tail(&Vec::new(), false), None);
    assert_eq!(readable_tail(&b"cut off\n  \n".to_vec(), true), None);
    assert_eq!(readable_tail(&b"no newline".to_vec(), true), Some(format!("{TRUNCATED}no newline")));
}

#[test]
fn unreadable_bytes_are_replaced_in_a_log() {
    let bytes = vec![b'a', 0xff, b'b'];
    assert_eq!(readable_tail(&bytes, false), Some("a\u{fffd}b".to_string()));
    assert_eq!(frame("whole".to_string(), false), Some("whole".to_string()));
}

#[test]
fn a_log_upload_says_how_it_went() {
    assert_eq!(NO_LOGS, "No logs to send yet.");
    assert_eq!(
        log_bundle("1.2.3", "aarch64", "line\n"),
        "punktfunk-webos 1.2.3 (webos aarch64) — client log bundle\nline\n"
    );
    assert_eq!(log_url("https://10.0.0.4:47990"), "https://10.0.0.4:47990/api/v1/client-logs");
    assert_eq!(
        upload_status("Alpha", None, ""),
        "Logs sent to Alpha — download them from its web console's Logs page"
    );
    assert_eq!(
        upload_status("Alpha", Some(LibraryError::Http(413)), "http 413"),
        "Log file too large to send (1 MB limit)."
    );
    assert_eq!(
        upload_status("Alpha", Some(LibraryError::NotPaired), "not paired"),
        "Alpha refused the logs — pair with it again."
    );
    assert_eq!(upload_status("Alpha", Some(LibraryError::Http(500)), "http 500"), "Alpha: http 500");
    assert_eq!(upload_status("Alpha", Some(LibraryError::Unreachable), "no answer"), "Alpha: no answer");
    assert_eq!(unread_status("denied"), "Couldn't read the log file: denied");
    assert_eq!(CONTENT_TYPE, "text/plain; charset=utf-8");
    assert_eq!(no_agent_status("Alpha", "no certificate"), "Couldn't send logs to Alpha — no certificate");
}

#[test]
fn given_words_fill_the_line() {
    let all: Vec<String> = ["one", "two", "three"].iter().map(|w| w.to_string()).collect();
    assert_eq!(wrap_words(&all, &narrower(70)), vec!["one two", "three"]);
    assert_eq!(wrap_words(&Vec::new(), &narrower(70)), vec![""]);
}

#[test]
fn a_document_is_wrapped_once_per_width() {
    let mut about = AboutText::new(vec!["one two three".to_string()]);
    assert_eq!(about.total(), 0);
    assert!(about.ensure_about_wrapped(70, 7, narrower(70)));
    assert_eq!(about.wrapped, vec!["one two", "three"]);
    assert!(!about.ensure_about_wrapped(70, 7, narrower(30)));
    assert_eq!(about.total(), 2);
    assert!(about.ensure_about_wrapped(30, 3, narrower(30)));
    assert_eq!(about.total(), 3);
}
