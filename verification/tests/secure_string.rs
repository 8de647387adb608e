use flickerled::secure_string::SecureString;

#[test]
fn insecure_exposes_the_contents() {
    let s = SecureString::new(String::from("SECRET-REDACTED"));
    assert_eq!(s.insecure(), "SECRET-REDACTED");
}

#[test]
fn map_builds_a_new_secret() {
    let s = SecureString::new(String::from("abc"));
    let upper = s.map(|inner| inner.to_uppercase());
    assert_eq!(upper.insecure(), "ABC");
    // The source value is untouched.
    assert_eq!(s.insecure(), "abc");
}

#[test]
fn wipe_erases_in_place() {
    let mut s = SecureString::new(String::from("SECRET-REDACTED"));
    s.wipe();
    assert_eq!(s.insecure(), "");
}
