use the_handler::auth::{check_scope_validity, AuthError, LoginResponse};

#[test]
fn all_valid_scopes_pass() {
    let scope = "openid https://www.googleapis.com/auth/userinfo.email https://www.googleapis.com/auth/userinfo.profile https://www.googleapis.com/auth/drive.file https://www.googleapis.com/auth/gmail.readonly";
    assert_eq!(check_scope_validity(scope), Ok(()));
    assert_eq!(check_scope_validity(""), Ok(()));
}

#[test]
fn an_unknown_scope_is_refused() {
    assert_eq!(
        check_scope_validity("openid https://www.googleapis.com/auth/calendar"),
        Err(AuthError::IncompleteScope)
    );
}

#[test]
fn login_response_holds_the_token() {
    assert_eq!(LoginResponse::new("jwt.token").token, "jwt.token");
}
