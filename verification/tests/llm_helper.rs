use the_handler::llm_helper::strip_code_block;

#[test]
fn strips_json_fence() {
    assert_eq!(strip_code_block("```json\n{\"a\": 1}\n```"), "{\"a\": 1}");
}

#[test]
fn strips_plain_fence() {
    assert_eq!(strip_code_block("```\n[1, 2]\n```"), "[1, 2]");
}

#[test]
fn leaves_unfenced_text() {
    assert_eq!(strip_code_block("{\"a\": 1}"), "{\"a\": 1}");
    assert_eq!(strip_code_block("  spaced  "), "  spaced  ");
}

#[test]
fn leaves_unclosed_fence() {
    assert_eq!(strip_code_block("```json\n{}"), "```json\n{}");
}

#[test]
fn json_fence_with_surrounding_whitespace_inside() {
    assert_eq!(strip_code_block("```json   {}   ```"), "{}");
}
