use std::collections::HashMap;

use pristup::UrlCredentials;
use pristup::encode::percent_encode;
use pristup::federation::{
    credentials_from_parts, login_url, role_arn, signin_token_from_body, signin_token_from_pairs,
    signin_token_request_url, CredentialField, ExchangeError,
};

#[test]
fn arn_joins_account_and_role() {
    assert_eq!(
        role_arn("123456789012", "Admin"),
        "arn:aws:iam::123456789012:role/Admin"
    );
    assert_eq!(
        role_arn("000000000000", "x"),
        "arn:aws:iam::000000000000:role/x"
    );
}

#[test]
fn encoded_payload_decodes_to_the_credential_json() {
    let creds = UrlCredentials::new(
        "AKIAEXAMPLE".to_string(),
        "SECRET".to_string(),
        "TOKEN".to_string(),
    );
    let json = creds.to_json();
    let encoded = percent_encode(&json);
    let decoded = urlencoding::decode(&encoded).unwrap();
    assert_eq!(decoded.as_ref(), json.as_str());
    let object: HashMap<String, String> = serde_json::from_str(&decoded).unwrap();
    assert_eq!(object.len(), 3);
    assert_eq!(object["sessionId"], "AKIAEXAMPLE");
    assert_eq!(object["sessionKey"], "SECRET");
    assert_eq!(object["sessionToken"], "TOKEN");
}

#[test]
fn credential_json_escapes_special_characters() {
    let creds = UrlCredentials::new(
        "with\"quote".to_string(),
        "back\\slash".to_string(),
        "line\nbreak\ttab\u{1}ctl".to_string(),
    );
    let object: HashMap<String, String> = serde_json::from_str(&creds.to_json()).unwrap();
    assert_eq!(object["sessionId"], "with\"quote");
    assert_eq!(object["sessionKey"], "back\\slash");
    assert_eq!(object["sessionToken"], "line\nbreak\ttab\u{1}ctl");
}

#[test]
fn percent_encoding_matches_the_reference_encoder() {
    for input in [
        "",
        "AZaz09-._~",
        "hello world!",
        "https://console.aws.amazon.com/",
        "a/b?c=d&e=f#g",
        "caf\u{e9} \u{20ac} \u{1f600}",
        "{\"k\":\"v\"}",
    ] {
        assert_eq!(
            percent_encode(input),
            urlencoding::encode(input).into_owned(),
            "encoding of {:?}",
            input
        );
    }
}

#[test]
fn request_url_carries_duration_and_session() {
    let creds = UrlCredentials::new(
        "AKIAEXAMPLE".to_string(),
        "SECRET".to_string(),
        "TOKEN".to_string(),
    );
    let url = signin_token_request_url(900, &creds);
    let expected = format!(
        "https://signin.aws.amazon.com/federation?Action=getSigninToken&SessionDuration=900&Session={}",
        urlencoding::encode(&creds.to_json())
    );
    assert_eq!(url, expected);
}

#[test]
fn request_url_formats_long_durations() {
    let creds = UrlCredentials::new("i".to_string(), "k".to_string(), "t".to_string());
    let url = signin_token_request_url(129600, &creds);
    assert!(url.contains("SessionDuration=129600&"));
    let url = signin_token_request_url(0, &creds);
    assert!(url.contains("SessionDuration=0&"));
}

#[test]
fn complete_credentials_pass_through() {
    let c = credentials_from_parts(
        Some("id".to_string()),
        Some("key".to_string()),
        Some("token".to_string()),
    )
    .unwrap();
    assert_eq!(c.session_id, "id");
    assert_eq!(c.session_key, "key");
    assert_eq!(c.session_token, "token");
}

#[test]
fn first_missing_credential_part_is_named() {
    assert_eq!(
        credentials_from_parts(None, Some("key".to_string()), Some("token".to_string())),
        Err(ExchangeError::IncompleteCredentials(
            CredentialField::AccessKeyId
        ))
    );
    assert_eq!(
        credentials_from_parts(Some("id".to_string()), None, Some("token".to_string())),
        Err(ExchangeError::IncompleteCredentials(
            CredentialField::SecretAccessKey
        ))
    );
    assert_eq!(
        credentials_from_parts(Some("id".to_string()), Some("key".to_string()), None),
        Err(ExchangeError::IncompleteCredentials(
            CredentialField::SessionToken
        ))
    );
    assert_eq!(
        credentials_from_parts(None, None, None),
        Err(ExchangeError::IncompleteCredentials(
            CredentialField::AccessKeyId
        ))
    );
}

#[test]
fn signin_token_is_extracted_from_the_answer() {
    assert_eq!(
        signin_token_from_body("{\"SigninToken\":\"ABC123\"}").unwrap(),
        "ABC123"
    );
    // Other keys around it change nothing.
    assert_eq!(
        signin_token_from_body("{\"Other\":\"x\",\"SigninToken\":\"T\"}").unwrap(),
        "T"
    );
}

#[test]
fn missing_signin_token_fails_the_exchange() {
    assert_eq!(
        signin_token_from_body("{}"),
        Err(ExchangeError::SigninExchangeFailed)
    );
    assert_eq!(
        signin_token_from_body("{\"Other\":\"x\"}"),
        Err(ExchangeError::SigninExchangeFailed)
    );
}

#[test]
fn malformed_answers_fail_the_exchange() {
    for body in ["", "not json", "[1,2]", "{\"SigninToken\":5}", "{\"SigninToken\":{}}"] {
        assert_eq!(
            signin_token_from_body(body),
            Err(ExchangeError::SigninExchangeFailed),
            "body {:?}",
            body
        );
    }
}

#[test]
fn token_lookup_scans_the_pairs() {
    let pairs = vec![
        ("A".to_string(), "1".to_string()),
        ("SigninToken".to_string(), "TOK".to_string()),
    ];
    assert_eq!(signin_token_from_pairs(&pairs).unwrap(), "TOK");
    let pairs = vec![("A".to_string(), "1".to_string())];
    assert_eq!(
        signin_token_from_pairs(&pairs),
        Err(ExchangeError::SigninExchangeFailed)
    );
}

#[test]
fn login_url_is_assembled_exactly() {
    assert_eq!(
        login_url("ABC123"),
        "https://signin.aws.amazon.com/federation?Action=login&Issuer=Example.org&Destination=https%3A%2F%2Fconsole.aws.amazon.com%2F&SigninToken=ABC123"
    );
}

#[test]
fn login_url_embeds_the_token_verbatim() {
    let url = login_url("ABC123");
    assert!(url.starts_with("https://signin.aws.amazon.com/federation?Action=login&"));
    assert!(url.contains("Issuer=Example.org"));
    assert!(url.ends_with("&SigninToken=ABC123"));
    let destination = url
        .split("Destination=")
        .nth(1)
        .unwrap()
        .split('&')
        .next()
        .unwrap();
    assert_eq!(
        urlencoding::decode(destination).unwrap(),
        "https://console.aws.amazon.com/"
    );
}

#[test]
fn exchange_error_messages_name_the_missing_part() {
    let m = ExchangeError::IncompleteCredentials(CredentialField::SecretAccessKey).message();
    assert!(m.contains("Secret Access Key"));
    let m = ExchangeError::SigninExchangeFailed.message();
    assert!(m.contains("SigninToken"));
}
