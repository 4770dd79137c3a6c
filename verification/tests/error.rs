use game_generator::error::GeneratorError;

#[test]
fn messages_carry_prefix_and_detail() {
    assert_eq!(GeneratorError::ApiError("quota".to_string()).message(), "API error: quota");
    assert_eq!(
        GeneratorError::TemplateError("bad tag".to_string()).message(),
        "Template error: bad tag"
    );
    assert_eq!(
        GeneratorError::GenerationFailed("".to_string()).message(),
        "Generation failed: "
    );
}

#[test]
fn io_error_is_wrapped_and_displayed() {
    let source = std::io::Error::new(std::io::ErrorKind::NotFound, "no such template");
    let error = GeneratorError::from(source);
    assert!(matches!(error, GeneratorError::IoError(_)));
    assert_eq!(error.message(), "IO error: no such template");
}

#[test]
fn json_error_is_wrapped_and_displayed() {
    let source = serde_json::from_str::<serde_json::Value>("{").unwrap_err();
    let text = source.to_string();
    let error: GeneratorError = source.into();
    assert!(matches!(error, GeneratorError::SerializationError(_)));
    assert_eq!(error.message(), format!("Serialization error: {}", text));
    assert!(text.len() > 0);
}
