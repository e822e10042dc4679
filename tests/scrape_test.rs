use tracktorial::text::replace;
use tracktorial::scrape::{
    extract_field, extract_inline_config, inline_blob_text, longest_line, Field, ScrapeError,
};

#[test]
fn field_extraction_finds_the_token() {
    let html = r#"<html><body><form><input name="authenticity_token" value="XYZ"></form></body></html>"#;
    assert_eq!(extract_field(html, Field::AuthenticityToken), Ok("XYZ".to_string()));
}

#[test]
fn field_extraction_without_the_token_is_not_found() {
    let html = r#"<html><body><form><input name="other" value="XYZ"></form></body></html>"#;
    assert_eq!(extract_field(html, Field::AuthenticityToken), Err(ScrapeError::NotFound));
}

#[test]
fn field_extraction_takes_the_first_match() {
    let html = r#"<input name="authenticity_token" value="first"><input name="authenticity_token" value="second">"#;
    assert_eq!(extract_field(html, Field::AuthenticityToken), Ok("first".to_string()));
}

#[test]
fn field_extraction_reads_assertion_relay_and_action() {
    let html = r#"<html><body><form method="POST" action="https://consumer.example/saml2/idpresponse">
<input type="hidden" name="SAMLResponse" value="PHNhbWw+" />
<input type="hidden" name="RelayState" value="relay-1" />
</form></body></html>"#;
    assert_eq!(extract_field(html, Field::SamlResponse), Ok("PHNhbWw+".to_string()));
    assert_eq!(extract_field(html, Field::RelayState), Ok("relay-1".to_string()));
    assert_eq!(
        extract_field(html, Field::FormAction),
        Ok("https://consumer.example/saml2/idpresponse".to_string())
    );
}

#[test]
fn field_extraction_without_form_is_not_found() {
    assert_eq!(extract_field("<p>no form</p>", Field::FormAction), Err(ScrapeError::NotFound));
}

#[test]
fn inline_config_reads_the_longest_line() {
    let body = "<html>\n<script>\n00000000{\"canary\":\"c1\",\"sFT\":\"f1\"}9\nshort\n</script>";
    let config = extract_inline_config(body).unwrap();
    assert_eq!(config.canary, "c1");
    assert_eq!(config.flow_token, "f1");
    assert_eq!(config.ctx, "");
    assert_eq!(config.session_id, "");
}

#[test]
fn inline_config_reads_all_identifiers() {
    let body = "x\n$Config={\"canary\":\"a\",\"sCtx\":\"b\",\"sessionId\":\"c\",\"sFT\":\"d\",\"n\":1};\ny";
    let config = extract_inline_config(body).unwrap();
    assert_eq!(config.canary, "a");
    assert_eq!(config.ctx, "b");
    assert_eq!(config.session_id, "c");
    assert_eq!(config.flow_token, "d");
}

#[test]
fn inline_config_ignores_members_that_are_not_strings() {
    let body = "00000000{\"canary\":5,\"sFT\":null,\"sCtx\":\"x\"}9";
    let config = extract_inline_config(body).unwrap();
    assert_eq!(config.canary, "");
    assert_eq!(config.flow_token, "");
    assert_eq!(config.ctx, "x");
}

#[test]
fn inline_config_of_empty_body_is_not_found() {
    assert!(matches!(extract_inline_config(""), Err(ScrapeError::NotFound)));
}

#[test]
fn inline_config_of_non_json_is_malformed() {
    let body = "short\nthis line is the longest one but holds no json at all\n";
    assert!(matches!(extract_inline_config(body), Err(ScrapeError::MalformedBlob)));
}

#[test]
fn inline_config_of_short_lines_is_malformed() {
    assert!(matches!(extract_inline_config("abc\n\n"), Err(ScrapeError::MalformedBlob)));
    assert!(matches!(extract_inline_config("\n"), Err(ScrapeError::MalformedBlob)));
}

#[test]
fn blob_text_strips_prefix_and_last_character() {
    assert_eq!(inline_blob_text("a\n12345678{}x\nb"), Ok("{}".to_string()));
    assert_eq!(inline_blob_text("123456789"), Ok("".to_string()));
    assert_eq!(inline_blob_text("12345678"), Err(ScrapeError::MalformedBlob));
    assert_eq!(inline_blob_text(""), Err(ScrapeError::NotFound));
}

#[test]
fn longest_line_keeps_the_first_of_equal_lines() {
    assert_eq!(longest_line("ab\ncd\ne"), Some("ab".to_string()));
    assert_eq!(longest_line("a\nbcd\nefg"), Some("bcd".to_string()));
}

#[test]
fn longest_line_drops_carriage_returns() {
    assert_eq!(longest_line("abc\r\nde\r\n"), Some("abc".to_string()));
    assert_eq!(longest_line("ab\nxyz\r"), Some("xyz\r".to_string()));
}

#[test]
fn longest_line_of_no_lines_is_none() {
    assert_eq!(longest_line(""), None);
    assert_eq!(longest_line("\n"), Some(String::new()));
}

#[test]
fn longest_line_counts_characters() {
    assert_eq!(longest_line("äöüß\nabc"), Some("äöüß".to_string()));
}

#[test]
fn replace_turns_every_occurrence_from_the_left() {
    assert_eq!(replace("/t/saml2", "saml2", "login"), "/t/login");
    assert_eq!(replace("saml2/saml2x", "saml2", "login"), "login/loginx");
    assert_eq!(replace("aaa", "aa", "b"), "ba");
    assert_eq!(replace("none here", "saml2", "login"), "none here");
    assert_eq!(replace("", "x", "y"), "");
}
