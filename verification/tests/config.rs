use http_llm_proxy_stream::config::parse_additional_header;

fn pair(name: &str, value: &str) -> Option<(String, String)> {
    Some((String::from(name), String::from(value)))
}

#[test]
fn one_colon_splits_name_and_value() {
    assert_eq!(parse_additional_header("X-Api-Key:right"), pair("X-Api-Key", "right"));
}

#[test]
fn nothing_is_trimmed() {
    assert_eq!(parse_additional_header("X-Api-Key: right"), pair("X-Api-Key", " right"));
}

#[test]
fn no_colon_configures_nothing() {
    assert_eq!(parse_additional_header("X-Api-Key"), None);
    assert_eq!(parse_additional_header(""), None);
}

#[test]
fn two_colons_configure_nothing() {
    assert_eq!(parse_additional_header("Referer: http://example.com"), None);
    assert_eq!(parse_additional_header("a:b:c"), None);
    assert_eq!(parse_additional_header("::"), None);
}

#[test]
fn empty_sides_are_kept() {
    assert_eq!(parse_additional_header(":"), pair("", ""));
    assert_eq!(parse_additional_header("name:"), pair("name", ""));
    assert_eq!(parse_additional_header(":value"), pair("", "value"));
}
