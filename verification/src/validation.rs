//! Validation of user input: the rules that requests and new records must
//! meet before they are stored, checked with the `validator` crate.

use vstd::prelude::*;
use validator::{ValidateEmail, ValidateLength};

verus! {

/// A field that broke its rule: the field's name, the rule's code, and the
/// message to show when the rule has one.
#[derive(Debug, Clone)]
pub struct FieldError {
    pub field: &'static str,
    pub code: &'static str,
    pub message: Option<&'static str>,
}

/// The content of a field error.
pub struct FieldErrorModel {
    pub field: Seq<char>,
    pub code: Seq<char>,
    pub message: Option<Seq<char>>,
}

impl View for FieldError {
    type V = FieldErrorModel;

    open spec fn view(&self) -> FieldErrorModel {
        FieldErrorModel {
            field: self.field@,
            code: self.code@,
            message: match self.message {
                Some(m) => Some(m@),
                None => None,
            },
        }
    }
}

/// The contents of a list of field errors.
pub open spec fn error_views(v: Seq<FieldError>) -> Seq<FieldErrorModel> {
    v.map_values(|e: FieldError| e@)
}

/// The error of `field` for the rule `code`, when `ok` is false.
pub open spec fn failed(ok: bool, field: Seq<char>, code: Seq<char>, message: Option<Seq<char>>) -> Seq<
    FieldErrorModel,
> {
    if ok {
        Seq::empty()
    } else {
        seq![FieldErrorModel { field, code, message }]
    }
}

/// The result of a validation: `Ok` when no rule failed, else the errors.
pub open spec fn outcome(r: Result<(), Vec<FieldError>>, errors: Seq<FieldErrorModel>) -> bool {
    match r {
        Ok(()) => errors.len() == 0,
        Err(v) => errors.len() > 0 && error_views(v@) == errors,
    }
}

/// What `ValidateEmail::validate_email` of the `validator` crate returns for
/// a text: whether it is an e-mail address as the HTML5 specification
/// defines one (a local part and a domain matched by patterns, with
/// internationalized domains and address literals accepted).
pub uninterp spec fn valid_email(s: Seq<char>) -> bool;

/// Calls `ValidateEmail::validate_email` of the `validator` crate; its
/// result is named `valid_email`.
#[verifier::external_body]
pub(crate) fn email_is_valid(s: &str) -> (r: bool)
    ensures
        r == valid_email(s@),
{
    s.validate_email()
}

/// Calls `ValidateLength::validate_length` of the `validator` crate with a
/// minimum only: a text passes when it has at least `min` characters (the
/// crate counts `chars()`).
#[verifier::external_body]
pub(crate) fn has_min_chars(s: &str, min: u64) -> (r: bool)
    ensures
        r == (s@.len() >= min),
{
    s.validate_length(Some(min), None, None)
}

/// Appends the error of `field` when `ok` is false.
pub(crate) fn push_failed(
    errors: &mut Vec<FieldError>,
    ok: bool,
    field: &'static str,
    code: &'static str,
    message: Option<&'static str>,
)
    ensures
        error_views(final(errors)@) == error_views(old(errors)@) + failed(
            ok,
            field@,
            code@,
            match message {
                Some(m) => Some(m@),
                None => None,
            },
        ),
{
    let ghost before = error_views(errors@);
    if !ok {
        let e = FieldError { field, code, message };
        errors.push(e);
        assert(error_views(errors@) =~= before.push(e@));
    } else {
        assert(error_views(errors@) =~= before);
    }
}

/// `Ok` when there are no errors, else the errors.
pub(crate) fn to_result(errors: Vec<FieldError>) -> (r: Result<(), Vec<FieldError>>)
    ensures
        outcome(r, error_views(errors@)),
{
    if errors.len() == 0 {
        Ok(())
    } else {
        Err(errors)
    }
}

} // verus!
