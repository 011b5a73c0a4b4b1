use http_llm_proxy_stream::text::{lower_char, same_ignoring_case, same_text, to_lowered};

#[test]
fn same_text_is_exact() {
    assert!(same_text("GET", "GET"));
    assert!(!same_text("GET", "get"));
    assert!(!same_text("GET", "GETS"));
    assert!(!same_text("GE", "GET"));
    assert!(same_text("", ""));
    assert!(same_text("gr\u{fc}n", "gr\u{fc}n"));
}

#[test]
fn ascii_letters_are_lowered_and_nothing_else() {
    assert_eq!(to_lowered("Content-ENCODING"), "content-encoding");
    assert_eq!(to_lowered("AZaz09@[`{"), "azaz09@[`{");
    assert_eq!(to_lowered("\u{c4}BC"), "\u{c4}bc");
    assert_eq!(lower_char('A'), 'a');
    assert_eq!(lower_char('Z'), 'z');
    assert_eq!(lower_char('@'), '@');
    assert_eq!(lower_char('['), '[');
    assert_eq!(lower_char('\u{212a}'), '\u{212a}');
}

#[test]
fn names_compare_without_regard_to_ascii_case() {
    assert!(same_ignoring_case("Host", "hOST"));
    assert!(same_ignoring_case("", ""));
    assert!(!same_ignoring_case("Host", "Hosts"));
    assert!(!same_ignoring_case("x-a", "x_a"));
}
