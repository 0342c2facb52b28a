use faf_rust_sdk::{parse, FafError};

#[test]
fn test_parse_minimal() {
    let content = r#"
faf_version: 2.5.0
project:
  name: test-project
"#;
    let faf = parse(content).unwrap();
    assert_eq!(faf.project_name(), "test-project");
    assert_eq!(faf.version(), "2.5.0");
}

#[test]
fn test_parse_with_score() {
    let content = r#"
faf_version: 2.5.0
ai_score: "85%"
project:
  name: test
"#;
    let faf = parse(content).unwrap();
    assert_eq!(faf.score(), Some(85));
}

#[test]
fn test_parse_full() {
    let content = r#"
faf_version: 2.5.0
ai_score: "90%"
project:
  name: full-test
  goal: Test everything
instant_context:
  what_building: Test app
  tech_stack: Rust, Python
  key_files:
    - src/main.rs
    - src/lib.rs
stack:
  backend: Rust
  database: PostgreSQL
"#;
    let faf = parse(content).unwrap();
    assert_eq!(faf.project_name(), "full-test");
    assert_eq!(faf.tech_stack(), Some("Rust, Python"));
    assert_eq!(faf.key_files().len(), 2);
    assert!(faf.is_high_quality());
}

#[test]
fn test_empty_content() {
    let result = parse("");
    assert!(matches!(result, Err(FafError::EmptyContent)));
}

#[test]
fn test_invalid_yaml() {
    let result = parse("invalid: [unclosed");
    assert!(matches!(result, Err(FafError::YamlError(_))));
}
