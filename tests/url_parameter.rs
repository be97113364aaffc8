use event_source::url_parameter::{URLParameter, URLParser};

#[test]
fn parses_the_three_names() {
    assert_eq!(URLParameter::parse("types"), Some(URLParameter::Types));
    assert_eq!(URLParameter::parse("closeafter"), Some(URLParameter::CloseAfter));
    assert_eq!(URLParameter::parse("ping"), Some(URLParameter::Ping));
}

#[test]
fn rejects_other_names() {
    assert_eq!(URLParameter::parse(""), None);
    assert_eq!(URLParameter::parse("pin"), None);
    assert_eq!(URLParameter::parse("pings"), None);
    assert_eq!(URLParameter::parse("close_after"), None);
    assert_eq!(URLParameter::parse("typez"), None);
}

#[test]
fn names_are_case_sensitive() {
    assert_eq!(URLParameter::parse("Types"), None);
    assert_eq!(URLParameter::parse("CLOSEAFTER"), None);
    assert_eq!(URLParameter::parse("Ping"), None);
}
