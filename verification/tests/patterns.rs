use remux_sync::patterns::{
    compile_safe_regex, compile_safe_regexes, validate_regex_pattern, PatternError,
};

#[test]
fn test_validate_regex_pattern() {
    assert!(validate_regex_pattern(r"^hello.*world$").is_ok());
    assert!(validate_regex_pattern(r"[unclosed-bracket").is_err());
}

#[test]
fn test_compile_safe_regex() {
    assert!(compile_safe_regex(r"^valid[0-9]+").is_some());
    assert!(compile_safe_regex(r"*(invalid").is_none());
}

#[test]
fn test_compile_safe_regexes_filters_invalid() {
    let patterns = vec![
        "valid_one.*".to_string(),
        "[unclosed".to_string(),
        "^valid_two$".to_string(),
        "?+bad".to_string(),
    ];

    let (compiled, invalid) = compile_safe_regexes(&patterns);
    assert_eq!(compiled.len(), 2);
    assert_eq!(invalid.len(), 2);
    assert_eq!(invalid, vec!["[unclosed", "?+bad"]);
    assert!(compiled[0].is_match("valid_one_test"));
    assert!(compiled[1].is_match("valid_two"));
}

#[test]
fn malformed_pattern_is_explained() {
    match validate_regex_pattern("a(b") {
        Err(PatternError::Syntax(text)) => assert!(text.contains("unclosed group")),
        other => panic!("unexpected outcome: {:?}", other),
    }
}

#[test]
fn oversized_pattern_is_refused_by_size() {
    match validate_regex_pattern(r"\w{1000}{1000}") {
        Err(PatternError::CompiledTooBig(limit)) => assert_eq!(limit, 10 * (1 << 20)),
        other => panic!("unexpected outcome: {:?}", other),
    }
}

#[test]
fn expressions_carry_their_patterns() {
    assert_eq!(compile_safe_regex(r"^a\.b$").unwrap().as_str(), r"^a\.b$");
    let patterns = vec!["b".to_string(), "[".to_string(), "a|b".to_string(), "b".to_string()];
    let (compiled, _) = compile_safe_regexes(&patterns);
    let carried: Vec<&str> = compiled.iter().map(|re| re.as_str()).collect();
    assert_eq!(carried, vec!["b", "a|b", "b"]);
}

#[test]
fn no_patterns_compile_to_nothing() {
    let (compiled, invalid) = compile_safe_regexes(&[]);
    assert!(compiled.is_empty());
    assert!(invalid.is_empty());
}

#[test]
fn every_pattern_is_compiled_or_handed_back() {
    let patterns = vec!["a".to_string(), "(".to_string(), "a".to_string(), "(".to_string()];
    let (compiled, invalid) = compile_safe_regexes(&patterns);
    assert_eq!(compiled.len() + invalid.len(), patterns.len());
    assert_eq!(invalid, vec!["(", "("]);
}

#[test]
fn valid_patterns_compile_in_place() {
    let patterns = vec!["^a$".to_string(), "^b$".to_string()];
    let (compiled, invalid) = compile_safe_regexes(&patterns);
    assert!(invalid.is_empty());
    assert!(compiled[0].is_match("a") && !compiled[0].is_match("b"));
    assert!(compiled[1].is_match("b") && !compiled[1].is_match("a"));
}
