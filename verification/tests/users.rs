use the_handler::users::CreateUserPayload;

#[test]
fn payload_for_a_google_user() {
    let p = CreateUserPayload::for_google_user(Some("jo@example.com".to_string()), Some("Jo".to_string()));
    assert_eq!(p.email, "jo@example.com");
    assert_eq!(p.username, "Jo");
    assert_eq!(p.auth_provider, "google_oauth2");
}

#[test]
fn missing_profile_fields_become_empty() {
    let p = CreateUserPayload::for_google_user(None, None);
    assert_eq!(p.email, "");
    assert_eq!(p.username, "");
    assert_eq!(p.auth_provider, "google_oauth2");
    let q = CreateUserPayload::new("a@b.c".to_string(), "ab".to_string(), "password".to_string());
    assert_eq!(q.auth_provider, "password");
}
