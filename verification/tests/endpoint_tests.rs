use ptwebhook::endpoint::{parse_webhook_url, validate_endpoint, EndpointError};

#[test]
fn parse_expands_id_token_pair() {
    let r = parse_webhook_url("123456/abcDEF").unwrap();
    assert_eq!(r, "https://discord.com/api/webhooks/123456/abcDEF");
}

#[test]
fn parse_prefixes_bare_host_path() {
    let r = parse_webhook_url("discord.com/api/webhooks/1/2").unwrap();
    assert_eq!(r, "https://discord.com/api/webhooks/1/2");
}

#[test]
fn parse_keeps_full_url() {
    let r = parse_webhook_url("https://discord.com/api/webhooks/42/tok_en-1").unwrap();
    assert_eq!(r, "https://discord.com/api/webhooks/42/tok_en-1");
}

#[test]
fn parse_rejects_plain_token() {
    assert_eq!(
        parse_webhook_url("not-a-valid-token"),
        Err(EndpointError::InvalidFormat)
    );
}

#[test]
fn parse_rejects_empty_id() {
    assert_eq!(parse_webhook_url("/abcDEF"), Err(EndpointError::InvalidFormat));
}

#[test]
fn parse_rejects_empty_token() {
    assert_eq!(parse_webhook_url("123456/"), Err(EndpointError::InvalidFormat));
}

#[test]
fn parse_rejects_nondigit_id() {
    assert_eq!(parse_webhook_url("12a456/abcDEF"), Err(EndpointError::InvalidFormat));
}

#[test]
fn parse_rejects_bad_token_char() {
    assert_eq!(parse_webhook_url("123456/abc$DEF"), Err(EndpointError::InvalidFormat));
}

#[test]
fn validate_accepts_expanded_pair() {
    let r = validate_endpoint("123456/abcDEF").unwrap();
    assert_eq!(r, "https://discord.com/api/webhooks/123456/abcDEF");
}

#[test]
fn validate_accepts_full_url() {
    let r = validate_endpoint("https://discord.com/api/webhooks/1/2").unwrap();
    assert_eq!(r, "https://discord.com/api/webhooks/1/2");
}

#[test]
fn validate_rejects_invalid_format() {
    assert_eq!(validate_endpoint(""), Err(EndpointError::InvalidFormat));
}

#[test]
fn error_messages_distinguish_causes() {
    let fmt = EndpointError::InvalidFormat.message();
    let url = EndpointError::InvalidUrl.message();
    assert!(fmt.contains("format"));
    assert!(url.contains("URL"));
    assert_ne!(fmt, url);
}
