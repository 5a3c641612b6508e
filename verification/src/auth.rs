//! Sign-in: the OAuth scopes a Google sign-in may grant, and the login
//! response.

use vstd::prelude::*;
use crate::text::{split_whitespace, str_eq, views, words};

verus! {

/// The scopes that a sign-in may grant.
pub open spec fn valid_scopes() -> Seq<Seq<char>> {
    seq![
        "https://www.googleapis.com/auth/drive.file"@,
        "https://www.googleapis.com/auth/userinfo.email"@,
        "https://www.googleapis.com/auth/userinfo.profile"@,
        "openid"@,
        "https://www.googleapis.com/auth/gmail.readonly"@,
    ]
}

/// Why a sign-in was refused.
#[derive(Debug, Clone, Copy, PartialEq, Eq, Structural)]
pub enum AuthError {
    /// A granted scope is not one the application asks for.
    IncompleteScope,
}

/// Tests whether `scope` is one of the valid scopes.
fn is_valid_scope(scope: &str) -> (r: bool)
    ensures
        r == valid_scopes().contains(scope@),
{
    let r = str_eq(scope, "https://www.googleapis.com/auth/drive.file") || str_eq(
        scope,
        "https://www.googleapis.com/auth/userinfo.email",
    ) || str_eq(scope, "https://www.googleapis.com/auth/userinfo.profile") || str_eq(
        scope,
        "openid",
    ) || str_eq(scope, "https://www.googleapis.com/auth/gmail.readonly");
    proof {
        let v = valid_scopes();
        if r {
            if scope@ == v[0] {
                assert(v.contains(scope@));
            } else if scope@ == v[1] {
                assert(v.contains(scope@));
            } else if scope@ == v[2] {
                assert(v.contains(scope@));
            } else if scope@ == v[3] {
                assert(v.contains(scope@));
            } else {
                assert(scope@ == v[4]);
                assert(v.contains(scope@));
            }
        }
    }
    r
}

/// Checks the space-separated scopes that a token exchange granted: every
/// one must be a valid scope.
pub fn check_scope_validity(scope: &str) -> (r: Result<(), AuthError>)
    ensures
        r is Ok <==> forall|i: int|
            0 <= i < words(scope@).len() ==> valid_scopes().contains(#[trigger] words(scope@)[i]),
        r matches Err(e) ==> e == AuthError::IncompleteScope,
{
    let scopes = split_whitespace(scope);
    let mut i: usize = 0;
    while i < scopes.len()
        invariant
            views(scopes@) == words(scope@),
            i <= scopes.len(),
            forall|j: int| 0 <= j < i ==> valid_scopes().contains(#[trigger] words(scope@)[j]),
        decreases scopes.len() - i,
    {
        assert(views(scopes@)[i as int] == scopes@[i as int]@);
        if !is_valid_scope(scopes[i].as_str()) {
            return Err(AuthError::IncompleteScope);
        }
        i = i + 1;
    }
    Ok(())
}

/// The parameters of a sign-in with Google: the authorization code.
#[derive(Debug, Clone)]
pub struct LoginWithGoogleParams {
    pub code: String,
}

/// The response to a successful login.
#[derive(Debug, Clone)]
pub struct LoginResponse {
    pub token: String,
}

impl LoginResponse {
    /// The response carrying `token`.
    pub fn new(token: &str) -> (r: LoginResponse)
        ensures
            r.token@ == token@,
    {
        LoginResponse { token: token.to_owned() }
    }
}

} // verus!
