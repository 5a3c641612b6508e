use the_handler::apply::{Question, QuestionKind};

#[test]
fn question_label_is_normalized() {
    let q = Question::new(
        "  How many YEARS of\n Rust experience?  ".to_string(),
        QuestionKind::Number,
        true,
        vec![],
        Some("e.g. 3".to_string()),
        None,
    );
    assert_eq!(q.label, "  How many YEARS of\n Rust experience?  ");
    assert_eq!(q.label_normalized, "how many years of rust experience?");
    assert_eq!(q.kind, QuestionKind::Number);
    assert!(q.required);
    assert_eq!(q.hint, Some("e.g. 3".to_string()));
    assert_eq!(q.current_value, None);
}

#[test]
fn normalizing_a_lowered_label() {
    assert_eq!(Question::normalize_lowered("  a\tb  c "), "a b c");
    assert_eq!(Question::normalize_lowered("   "), "");
}

#[test]
fn normalizing_twice_is_normalizing_once() {
    let once = Question::normalize_lowered(" what   is\tyour\n notice period? ");
    assert_eq!(once, "what is your notice period?");
    assert_eq!(Question::normalize_lowered(&once), once);
}
