//! Accounts: what a new user is created with.

use vstd::prelude::*;
use crate::validation::{
    email_is_valid, failed, has_min_chars, outcome, push_failed, to_result, valid_email,
    FieldError, FieldErrorModel,
};

verus! {

/// The fields of a user to create.
#[derive(Debug, Clone)]
pub struct CreateUserPayload {
    pub email: String,
    pub username: String,
    pub auth_provider: String,
}

/// The text an optional field stands for: its value, or nothing.
pub open spec fn or_empty(o: Option<String>) -> Seq<char> {
    match o {
        Some(s) => s@,
        None => Seq::empty(),
    }
}

impl CreateUserPayload {
    /// The payload with the given fields.
    pub fn new(email: String, username: String, auth_provider: String) -> (r: CreateUserPayload)
        ensures
            r.email == email,
            r.username == username,
            r.auth_provider == auth_provider,
    {
        CreateUserPayload { email, username, auth_provider }
    }

    /// The user created for a first Google sign-in: the profile's e-mail and
    /// name (empty when Google gives none), signed in with "google_oauth2".
    pub fn for_google_user(email: Option<String>, name: Option<String>) -> (r: CreateUserPayload)
        ensures
            r.email@ == or_empty(email),
            r.username@ == or_empty(name),
            r.auth_provider@ == "google_oauth2"@,
    {
        let email = match email {
            Some(e) => e,
            None => String::new(),
        };
        let username = match name {
            Some(n) => n,
            None => String::new(),
        };
        CreateUserPayload::new(email, username, "google_oauth2".to_owned())
    }
}

/// A new user's fields as they are checked before the user is stored.
#[derive(Debug, Clone)]
pub struct Validator {
    pub email: String,
    pub username: String,
}

/// The errors of a new user's fields: the e-mail address must be valid, and
/// the name at least two characters long.
pub open spec fn user_errors(email: Seq<char>, username: Seq<char>) -> Seq<FieldErrorModel> {
    failed(valid_email(email), "email"@, "email"@, Some("invalid email"@)) + failed(
        username.len() >= 2,
        "username"@,
        "length"@,
        Some("Name must be at least 2 characters long."@),
    )
}

impl Validator {
    /// Checks a new user's fields.
    pub fn validate(&self) -> (r: Result<(), Vec<FieldError>>)
        ensures
            outcome(r, user_errors(self.email@, self.username@)),
    {
        let mut errors: Vec<FieldError> = Vec::new();
        push_failed(&mut errors, email_is_valid(self.email.as_str()), "email", "email", Some("invalid email"));
        push_failed(
            &mut errors,
            has_min_chars(self.username.as_str(), 2),
            "username",
            "length",
            Some("Name must be at least 2 characters long."),
        );
        to_result(errors)
    }
}

} // verus!
