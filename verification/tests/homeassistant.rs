use flickerled::homeassistant::{bearer_header, entity_state_url, status_is_success};
use flickerled::secure_string::SecureString;

#[test]
fn url_joins_base_path_and_entity() {
    let url = entity_state_url("http://ha.local:8123", "device_tracker.phone");
    assert_eq!(url, "http://ha.local:8123/api/states/device_tracker.phone");
}

#[test]
fn url_with_empty_entity_keeps_path() {
    let url = entity_state_url("https://example.org", "");
    assert_eq!(url, "https://example.org/api/states/");
}

#[test]
fn bearer_header_prefixes_token() {
    let token = SecureString::new(String::from("SECRET-REDACTED"));
    let header = bearer_header(&token);
    assert_eq!(header.insecure(), "Bearer SECRET-REDACTED");
}

#[test]
fn success_codes_are_the_two_hundreds() {
    assert!(!status_is_success(199));
    assert!(status_is_success(200));
    assert!(status_is_success(250));
    assert!(status_is_success(299));
    assert!(!status_is_success(300));
    assert!(!status_is_success(404));
    assert!(!status_is_success(500));
}
