use intercom_client::client::{check_header_value, Client};
use intercom_client::errors::Error;

#[test]
fn client_configuration_is_fixed() {
    let client = Client::new("SECRET-REDACTED".to_string());
    assert_eq!(client.endpoint, "https://api.intercom.io/");
    assert_eq!(client.version, "2.10");
    assert_eq!(client.access_token, "SECRET-REDACTED");
}

#[test]
fn request_url_joins_endpoint_and_path() {
    let client = Client::new("tok".to_string());
    assert_eq!(client.request_url("contacts"), "https://api.intercom.io//contacts");
}

#[test]
fn headers_carry_bearer_and_version() {
    let client = Client::new("tok123".to_string());
    let headers = client.build_headers().expect("valid token");
    assert_eq!(
        headers,
        vec![
            ("Authorization".to_string(), "Bearer tok123".to_string()),
            ("Intercom-Version".to_string(), "2.10".to_string()),
        ]
    );
}

#[test]
fn header_failure_on_control_character() {
    let client = Client::new("bad\ntoken".to_string());
    let err = client.build_headers().expect_err("newline is not a header value");
    assert!(matches!(err, Error::HTTPError(_)));
}

#[test]
fn header_value_check() {
    assert!(check_header_value("Bearer abc 123"));
    assert!(check_header_value("tab\tis fine"));
    assert!(check_header_value(""));
    assert!(!check_header_value("no\nnewline"));
    assert!(!check_header_value("no\rreturn"));
    assert!(!check_header_value("no\u{7f}delete"));
}

#[test]
fn error_messages() {
    assert_eq!(Error::NotLoggedIn.message(), "Not logged in");
    assert_eq!(
        Error::HTTPError("boom".to_string()).message(),
        "HTTP request to Intercom failed boom"
    );
}
