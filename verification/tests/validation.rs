use game_generator::validation::{
    braces_error, collect_errors, fenced_blocks, toml_blocks, validate_prompt,
};

fn chars(s: &str) -> Vec<char> {
    s.chars().collect()
}

fn padded(body: &str) -> String {
    format!("{}{{{{ game_name }}}}\n{}", "x".repeat(60), body)
}

#[test]
fn empty_prompt_fails_the_three_basic_checks() {
    let errors = validate_prompt("");
    assert_eq!(
        errors,
        vec![
            "Prompt is empty".to_string(),
            "Prompt seems too short".to_string(),
            "No template variables or logic found".to_string(),
        ]
    );
}

#[test]
fn blank_prompt_is_empty_after_trimming() {
    let errors = validate_prompt(" \t\r\n\u{00A0}\u{3000} ");
    assert_eq!(errors[0], "Prompt is empty");
    assert_eq!(errors[1], "Prompt seems too short");
    assert_eq!(errors[2], "No template variables or logic found");
    assert_eq!(errors.len(), 3);
}

#[test]
fn long_prompt_with_a_variable_is_valid() {
    let content = "x".repeat(60) + "{{ game_name }}";
    assert_eq!(validate_prompt(&content), Vec::<String>::new());
}

#[test]
fn logic_tag_counts_as_template_syntax() {
    let content = "y".repeat(60) + "{% if a %}b{% endif %}";
    assert_eq!(validate_prompt(&content), Vec::<String>::new());
}

#[test]
fn length_is_counted_in_bytes() {
    // 25 characters of two bytes each: 50 bytes, which is long enough.
    let content = "é".repeat(22) + "{{ a }}";
    assert_eq!(content.chars().count(), 29);
    assert_eq!(content.len(), 51);
    assert_eq!(validate_prompt(&content), Vec::<String>::new());
    let short = "x".repeat(42) + "{{ a }}";
    assert_eq!(short.len(), 49);
    assert_eq!(validate_prompt(&short), vec!["Prompt seems too short".to_string()]);
    let enough = "x".repeat(43) + "{{ a }}";
    assert_eq!(enough.len(), 50);
    assert_eq!(validate_prompt(&enough), Vec::<String>::new());
}

#[test]
fn missing_template_syntax_is_reported() {
    let content = "z".repeat(80);
    assert_eq!(
        validate_prompt(&content),
        vec!["No template variables or logic found".to_string()]
    );
}

#[test]
fn template_syntax_error_is_reported_with_the_parser_message() {
    let content = "x".repeat(60) + "{% if %}";
    let errors = validate_prompt(&content);
    assert_eq!(errors.len(), 1);
    assert!(errors[0].starts_with("MinJinja parse error: syntax error"));
    assert!(errors[0].ends_with("(in test:1)"));
    assert!(!errors[0].contains("xxxx"));
}

#[test]
fn parse_error_names_the_line_of_the_fault() {
    let content = "x".repeat(60) + "\n\n{% comment %}";
    let errors = validate_prompt(&content);
    assert_eq!(
        errors,
        vec!["MinJinja parse error: syntax error: unknown statement comment (in test:3)".to_string()]
    );
}

#[test]
fn unclosed_variable_is_a_parse_error() {
    let content = "x".repeat(60) + "{{ game_name ";
    let errors = validate_prompt(&content);
    assert_eq!(errors.len(), 1);
    assert!(errors[0].starts_with("MinJinja parse error: "));
}

#[test]
fn three_fence_markers_are_an_unclosed_block() {
    let content = padded("```\ncode\n```\n```\n");
    let errors = validate_prompt(&content);
    assert_eq!(errors, vec!["Unclosed code block detected".to_string()]);
}

#[test]
fn two_fence_markers_are_balanced() {
    let content = padded("```\ncode\n```\n");
    assert_eq!(validate_prompt(&content), Vec::<String>::new());
}

#[test]
fn fence_markers_are_counted_without_overlap() {
    // Four backticks hold one marker, six hold two.
    let one = padded("````\n");
    assert_eq!(validate_prompt(&one), vec!["Unclosed code block detected".to_string()]);
    let two = padded("``````\n");
    assert_eq!(validate_prompt(&two), Vec::<String>::new());
}

#[test]
fn unbalanced_rust_block_is_reported_with_its_counts() {
    let content = padded("```rust\nfn main() { if x { }\n```\n");
    let errors = validate_prompt(&content);
    assert_eq!(
        errors,
        vec!["Unbalanced braces in Rust code block: 2 open, 1 close".to_string()]
    );
}

#[test]
fn rs_label_opens_a_rust_block_too() {
    let content = padded("  ```rs  \n}}}\n  ```\n");
    let errors = validate_prompt(&content);
    assert_eq!(
        errors,
        vec!["Unbalanced braces in Rust code block: 0 open, 3 close".to_string()]
    );
}

#[test]
fn balanced_rust_block_is_fine() {
    let content = padded("```rust\nfn main() { let a = A { b: 1 }; }\n```\n");
    assert_eq!(validate_prompt(&content), Vec::<String>::new());
}

#[test]
fn each_unbalanced_rust_block_is_reported_in_order() {
    let content = padded("```rust\n{\n```\ntext\n```rust\n}}\n```\n```rust\n{}\n```\n");
    let errors = validate_prompt(&content);
    assert_eq!(
        errors,
        vec![
            "Unbalanced braces in Rust code block: 1 open, 0 close".to_string(),
            "Unbalanced braces in Rust code block: 0 open, 2 close".to_string(),
        ]
    );
}

#[test]
fn rust_block_left_open_is_not_checked_for_braces() {
    let content = padded("```rust\nfn main() {\n");
    let errors = validate_prompt(&content);
    assert_eq!(errors, vec!["Unclosed code block detected".to_string()]);
}

#[test]
fn a_second_label_starts_the_body_afresh() {
    let content = padded("```rust\n{{{\n```rust\n{}\n```\n");
    let errors = validate_prompt(&content);
    // Three markers: the block is unclosed, but the body that counts is `{}`.
    assert_eq!(errors.len(), 2);
    assert!(errors[0].starts_with("MinJinja parse error: ") || errors[0] == "Unclosed code block detected");
    assert!(!errors.iter().any(|e| e.starts_with("Unbalanced braces")));
}

#[test]
fn other_languages_are_not_scanned() {
    let content = padded("```python\n{\n```\n");
    assert_eq!(validate_prompt(&content), Vec::<String>::new());
}

#[test]
fn invalid_toml_block_is_reported() {
    let content = padded("```toml\nname = \n```\n");
    let errors = validate_prompt(&content);
    assert_eq!(errors, vec!["Invalid TOML in code block".to_string()]);
}

#[test]
fn valid_toml_block_is_fine() {
    let content = padded("```toml\n[package]\nname = \"demo\"\nversion = \"0.1.0\"\n```\n");
    assert_eq!(validate_prompt(&content), Vec::<String>::new());
}

#[test]
fn empty_toml_block_is_fine() {
    let content = padded("```toml\n```\n");
    assert_eq!(validate_prompt(&content), Vec::<String>::new());
}

#[test]
fn each_invalid_toml_block_is_reported() {
    let content = padded("```toml\na = 1\n```\n```toml\n= 2\n```\n```toml\n[[\n```\n");
    let errors = validate_prompt(&content);
    assert_eq!(
        errors,
        vec![
            "Invalid TOML in code block".to_string(),
            "Invalid TOML in code block".to_string(),
        ]
    );
}

#[test]
fn errors_come_in_the_order_of_the_checks() {
    let content = "{% if %}\n```rust\n{\n```\n```toml\n=\n```\n```";
    let errors = validate_prompt(content);
    assert_eq!(errors.len(), 5);
    assert_eq!(errors[0], "Prompt seems too short");
    assert!(errors[1].starts_with("MinJinja parse error: "));
    assert_eq!(errors[2], "Unclosed code block detected");
    assert_eq!(errors[3], "Unbalanced braces in Rust code block: 1 open, 0 close");
    assert_eq!(errors[4], "Invalid TOML in code block");
}

#[test]
fn collect_errors_takes_the_outside_verdicts_as_given() {
    let content = padded("```rust\n{{\n}\n```\n");
    let errors = collect_errors(&content, Some("boom".to_string()), &vec![true, false, false]);
    assert_eq!(
        errors,
        vec![
            "MinJinja parse error: boom".to_string(),
            "Unbalanced braces in Rust code block: 2 open, 1 close".to_string(),
            "Invalid TOML in code block".to_string(),
            "Invalid TOML in code block".to_string(),
        ]
    );
    assert_eq!(collect_errors(&content[..60], None, &vec![]), vec![
        "No template variables or logic found".to_string()
    ]);
}

#[test]
fn toml_blocks_yields_the_bodies_of_closed_blocks() {
    let content = "intro\n```toml\na = 1\r\n  b = 2  \n```\n```rust\nx\n```\n ```toml \n```\n```toml\nopen";
    assert_eq!(
        toml_blocks(content),
        vec!["a = 1\n  b = 2  \n".to_string(), "".to_string()]
    );
    assert_eq!(toml_blocks("no blocks"), Vec::<String>::new());
}

#[test]
fn fenced_blocks_follows_the_labels_given() {
    let lines: Vec<Vec<char>> = ["```a", "one", "```", "```b", "two", "```", "```c", "three", "```"]
        .iter()
        .map(|l| chars(l))
        .collect();
    let labels = vec![chars("```a"), chars("```c")];
    assert_eq!(fenced_blocks(&lines, &labels), vec![chars("one\n"), chars("three\n")]);
    assert_eq!(fenced_blocks(&lines, &vec![]), Vec::<Vec<char>>::new());
}

#[test]
fn braces_error_writes_the_counts_in_decimal() {
    assert_eq!(
        braces_error(0, 10),
        "Unbalanced braces in Rust code block: 0 open, 10 close"
    );
    assert_eq!(
        braces_error(12345, 9),
        "Unbalanced braces in Rust code block: 12345 open, 9 close"
    );
    assert_eq!(
        braces_error(usize::MAX, 100),
        format!("Unbalanced braces in Rust code block: {} open, 100 close", usize::MAX)
    );
}
