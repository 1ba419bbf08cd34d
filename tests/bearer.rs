use matatabi::bearer::{Bearer, BearerHeader, Credentials, ParseError};

#[test]
fn test_parse() {
    let token = Bearer::parse("Bearer mF_9.B5f-4.1JqM");

    assert!(token.is_ok());
    let token = token.unwrap();
    assert_eq!(token.get_token(), "mF_9.B5f-4.1JqM");
}

#[test]
fn test_parse_empty_pattern() {
    let token = Bearer::parse("");

    assert!(token.is_err());
}

#[test]
fn test_parse_wrong_token_pattern() {
    let token = Bearer::parse("YEAHHHHHHHHHHHHHHHHHH");

    assert!(token.is_err());
}

#[test]
fn test_parse_token_string_empty_pattern() {
    let token = Bearer::parse("Bearer ");

    assert!(token.is_err());
}

#[test]
fn parse_errors_name_their_cause() {
    assert_eq!(Bearer::parse("Bearer").unwrap_err(), ParseError::Invalid);
    assert_eq!(Bearer::parse("YEAHHHHHHHHHHHHHHHHHH").unwrap_err(), ParseError::MissingTokenSchemeName);
    assert_eq!(Bearer::parse("Basic abcdefgh").unwrap_err(), ParseError::MissingTokenSchemeName);
    assert_eq!(Bearer::parse("bearer abcdefgh").unwrap_err(), ParseError::MissingTokenSchemeName);
    assert_eq!(Bearer::parse("Bearer tok\u{7f}en").unwrap_err(), ParseError::FailedToStr);
}

#[test]
fn parse_keeps_everything_after_the_first_space() {
    let token = Bearer::parse("Bearer a b").unwrap();
    assert_eq!(token.get_token(), "a b");
    let token = Bearer::parse("Bearer  x").unwrap();
    assert_eq!(token.get_token(), " x");
}

#[test]
fn credentials_hand_out_the_token() {
    let header = BearerHeader(Bearer::new("abc".to_string()));
    let credentials = Credentials(header.into_value());
    assert_eq!(credentials.get_token(), "abc");
}
