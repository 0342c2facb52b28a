use faf_rust_sdk::{parse, validate};

#[test]
fn test_validate_minimal() {
    let content = r#"
faf_version: 2.5.0
project:
  name: test
"#;
    let faf = parse(content).unwrap();
    let result = validate(&faf);
    assert!(result.valid);
    assert!(result.score >= 20);
}

#[test]
fn test_validate_full() {
    let content = r#"
faf_version: 2.5.0
project:
  name: test
  goal: Testing
instant_context:
  what_building: Test
  tech_stack: Rust
  key_files:
    - main.rs
stack:
  backend: Rust
human_context:
  who: Developers
tags:
  - rust
state:
  phase: dev
"#;
    let faf = parse(content).unwrap();
    let result = validate(&faf);
    assert!(result.valid);
    assert!(result.score >= 90);
}
