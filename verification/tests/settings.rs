use the_handler::settings::{EncryptionSettings, GoogleSettings, LinkedInSettings, Settings};

#[test]
fn default_settings_are_empty() {
    let s = Settings::default();
    assert_eq!(s.google.client_id, "");
    assert_eq!(s.encryption.key_path, "");
    assert_eq!(s.linkedin.li_at, None);
    assert_eq!(s.linkedin.pagination_size, 0);
}

#[test]
fn settings_hold_their_values() {
    let s = Settings {
        google: GoogleSettings {
            client_id: "id".to_string(),
            client_secret: "SECRET-REDACTED".to_string(),
            redirect_uri: "http://localhost/cb".to_string(),
        },
        encryption: EncryptionSettings { key_path: "key.bin".to_string() },
        linkedin: LinkedInSettings {
            webdriver_url: "http://localhost:9222".to_string(),
            li_at: Some("cookie".to_string()),
            jsessionid: None,
            pagination_size: 25,
            pagination_max_pages: 4,
        },
    };
    let c = s.clone();
    assert_eq!(c.linkedin.pagination_size * c.linkedin.pagination_max_pages, 100);
    assert_eq!(c.encryption.key_path, "key.bin");
}
