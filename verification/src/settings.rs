//! The application's own settings, as read from its configuration.

use vstd::prelude::*;

verus! {

/// All settings of the application.
#[derive(Default, Debug, Clone)]
pub struct Settings {
    pub google: GoogleSettings,
    pub encryption: EncryptionSettings,
    pub linkedin: LinkedInSettings,
}

/// The OAuth client of the Google sign-in.
#[derive(Default, Debug, Clone)]
pub struct GoogleSettings {
    pub client_id: String,
    pub client_secret: String,
    pub redirect_uri: String,
}

/// Where the key that seals stored credentials lies.
#[derive(Default, Debug, Clone)]
pub struct EncryptionSettings {
    pub key_path: String,
}

/// How the LinkedIn directory is reached and paged.
#[derive(Default, Debug, Clone)]
pub struct LinkedInSettings {
    pub webdriver_url: String,
    pub li_at: Option<String>,
    pub jsessionid: Option<String>,
    pub pagination_size: usize,
    pub pagination_max_pages: usize,
}

} // verus!
