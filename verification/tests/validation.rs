use the_handler::knowledge::{AddKnowledgeBaseRequest, UploadKnowledgeBaseRequest};
use the_handler::users::Validator;
use the_handler::validation::FieldError;

fn fields(errors: &[FieldError]) -> Vec<(&str, &str, Option<&str>)> {
    errors.iter().map(|e| (e.field, e.code, e.message)).collect()
}

#[test]
fn a_valid_user_passes() {
    let v = Validator { email: "jo@example.com".to_string(), username: "Jo".to_string() };
    assert!(v.validate().is_ok());
    let v = Validator { email: "jo@bücher.de".to_string(), username: "Jö".to_string() };
    assert!(v.validate().is_ok());
}

#[test]
fn invalid_email_and_short_name_are_reported() {
    let v = Validator { email: "not-an-email".to_string(), username: "J".to_string() };
    let errors = v.validate().unwrap_err();
    assert_eq!(
        fields(&errors),
        vec![
            ("email", "email", Some("invalid email")),
            ("username", "length", Some("Name must be at least 2 characters long.")),
        ]
    );
    let v = Validator { email: "@example.com".to_string(), username: "Jo".to_string() };
    assert_eq!(fields(&v.validate().unwrap_err()), vec![("email", "email", Some("invalid email"))]);
}

#[test]
fn name_length_counts_characters() {
    // two characters, four bytes
    let v = Validator { email: "a@b.io".to_string(), username: "éé".to_string() };
    assert!(v.validate().is_ok());
    let v = Validator { email: "a@b.io".to_string(), username: "é".to_string() };
    assert!(v.validate().is_err());
}

#[test]
fn knowledge_base_requests() {
    assert!(UploadKnowledgeBaseRequest { label: "CV".to_string() }.validate().is_ok());
    assert_eq!(
        fields(&UploadKnowledgeBaseRequest { label: "C".to_string() }.validate().unwrap_err()),
        vec![("label", "length", None)]
    );
    let ok = AddKnowledgeBaseRequest { label: "Notes".to_string(), content: "0123456789".to_string() };
    assert!(ok.validate().is_ok());
    let bad = AddKnowledgeBaseRequest { label: "N".to_string(), content: "short".to_string() };
    assert_eq!(fields(&bad.validate().unwrap_err()), vec![("label", "length", None), ("content", "length", None)]);
}
