//! Questions of application forms as an answering handler sees them.

use vstd::prelude::*;
use crate::text::{
    join, join_strings, lemma_normalize_ws_idempotent, lowercase, split_whitespace, to_lowercase,
    views, words,
};

verus! {

/// The kind of input a form field expects.
#[derive(Debug, Clone, Copy, PartialEq, Eq, Structural)]
pub enum QuestionKind {
    /// Free-form text input
    Text,
    /// Numeric input (years of experience, salary, etc.)
    Number,
    /// Single yes/no toggle or two-option radio
    YesNo,
    /// Radio buttons — pick exactly one from `options`
    SingleChoice,
    /// Checkboxes — pick one or more from `options`
    MultiChoice,
    /// <select> dropdown — pick exactly one from `options`
    Dropdown,
    /// File upload (resume, cover letter, portfolio)
    FileUpload,
}

/// Every piece of information about a form field that the handler needs to
/// produce a good answer.
#[derive(Debug, Clone)]
pub struct Question {
    /// Raw label text as scraped from the page
    pub label: String,
    /// Lowercased, whitespace-normalised label — convenient for matching
    pub label_normalized: String,
    /// The kind of input this question expects
    pub kind: QuestionKind,
    /// Whether the field must be filled before advancing
    pub required: bool,
    /// For choice-based questions, the available options
    pub options: Vec<String>,
    /// Any placeholder / hint text on the input
    pub hint: Option<String>,
    /// The field's current pre-filled value, if any
    pub current_value: Option<String>,
}

/// An answer to a form field.
#[derive(Debug, Clone)]
pub enum Answer {
    /// For Text, Number questions
    Text(String),
    /// For YesNo questions
    YesNo(bool),
    /// For SingleChoice, Dropdown — the chosen option verbatim
    SingleChoice(String),
    /// For MultiChoice — one or more chosen options
    MultiChoice(Vec<String>),
    /// For FileUpload — raw bytes + filename
    FileUpload { filename: String, bytes: Vec<u8> },
    /// The handler intentionally has no answer; the field is left as is
    Skip,
}

/// A label lower-cased, its words separated by single spaces.
pub open spec fn normalized_label(label: Seq<char>) -> Seq<char> {
    join(words(lowercase(label)), " "@)
}

impl Question {
    /// A question with its label normalized for matching.
    pub fn new(
        label: String,
        kind: QuestionKind,
        required: bool,
        options: Vec<String>,
        hint: Option<String>,
        current_value: Option<String>,
    ) -> (r: Question)
        ensures
            r.label == label,
            r.label_normalized@ == normalized_label(label@),
            r.kind == kind,
            r.required == required,
            r.options == options,
            r.hint == hint,
            r.current_value == current_value,
    {
        let lower = to_lowercase(label.as_str());
        let label_normalized = Self::normalize_lowered(lower.as_str());
        Question { label, label_normalized, kind, required, options, hint, current_value }
    }

    /// The words of an already lower-cased label, separated by single spaces.
    pub fn normalize_lowered(lower: &str) -> (r: String)
        ensures
            r@ == join(words(lower@), " "@),
    {
        let ws = split_whitespace(lower);
        join_strings(&ws, " ")
    }
}

/// Law: normalizing a normalized label changes nothing — its words joined
/// with single spaces are already in that form.
pub proof fn lemma_normalize_idempotent(lower: Seq<char>)
    ensures
        join(words(join(words(lower), " "@)), " "@) == join(words(lower), " "@),
{
    reveal_strlit(" ");
    assert(" "@ =~= seq![' ']);
    lemma_normalize_ws_idempotent(lower);
}

} // verus!
