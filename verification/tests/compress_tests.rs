use faf_rust_sdk::{
    compress, estimate_tokens, parse, CompressionLevel, FafData, FafFile, InstantContext, Project,
    StringMap,
};

#[test]
fn test_compress_minimal() {
    let content = r#"
faf_version: 2.5.0
project:
  name: test
  goal: Testing
instant_context:
  what_building: App
  tech_stack: Rust
  key_files:
    - a.rs
    - b.rs
stack:
  backend: Rust
human_context:
  who: Devs
"#;
    let faf = parse(content).unwrap();
    let compressed = compress(&faf, CompressionLevel::Minimal);

    assert_eq!(compressed.project.name, "test");
    assert!(compressed.instant_context.as_ref().unwrap().tech_stack.is_some());
    assert!(compressed.stack.is_none());
    assert!(compressed.human_context.is_none());
}

#[test]
fn test_compress_standard() {
    let content = r#"
faf_version: 2.5.0
project:
  name: test
  goal: Testing
instant_context:
  what_building: App
  tech_stack: Rust
  key_files:
    - a.rs
    - b.rs
    - c.rs
    - d.rs
    - e.rs
    - f.rs
    - g.rs
stack:
  backend: Rust
human_context:
  who: Devs
"#;
    let faf = parse(content).unwrap();
    let compressed = compress(&faf, CompressionLevel::Standard);

    assert!(compressed.stack.is_some());
    assert_eq!(compressed.instant_context.as_ref().unwrap().key_files.len(), 5);
    assert!(compressed.human_context.is_none());
}

fn rich_document() -> FafFile {
    let content = r#"
faf_version: 2.5.0
ai_score: 91%
ai_confidence: HIGH
ai_tldr:
  summary: a library
project:
  name: rich
  goal: Everything
  main_language: Rust
  approach: careful
  version: 1.2.3
  license: MIT
instant_context:
  what_building: A parser
  tech_stack: Rust, YAML
  deployment: crates.io
  key_files: [f0, f1, f2, f3, f4, f5, f6, f7, f8, f9]
  commands:
    build: cargo build
    test: cargo test
context_quality:
  slots_filled: 20/21
  confidence: high
  handoff_ready: true
  missing_context: [deployment]
stack:
  frontend: none
  backend: Rust
  database: none
  infrastructure: none
  build_tool: cargo
  testing: cargo test
  cicd: actions
human_context:
  who: developers
  what: context
  why: speed
  how: yaml
  where: repo
  when: now
preferences:
  quality_bar: high
  testing: required
  documentation: inline
  code_style: rustfmt
state:
  phase: dev
  version: 0.1
  focus: tests
  milestones: [m1, m2]
tags: [rust, yaml]
"#;
    parse(content).unwrap()
}

#[test]
fn full_keeps_every_field() {
    let faf = rich_document();
    let full = compress(&faf, CompressionLevel::Full);
    assert_eq!(full, faf.data);
    assert_eq!(full.human_context.as_ref().unwrap().why_field, Some("speed".to_string()));
    assert_eq!(full.human_context.as_ref().unwrap().where_field, Some("repo".to_string()));
}

#[test]
fn standard_keeps_the_first_five_key_files_in_order() {
    let faf = rich_document();
    let standard = compress(&faf, CompressionLevel::Standard);
    let ic = standard.instant_context.as_ref().unwrap();
    assert_eq!(ic.key_files, vec!["f0", "f1", "f2", "f3", "f4"]);
    assert_eq!(ic.what_building, Some("A parser".to_string()));
    assert_eq!(ic.tech_stack, Some("Rust, YAML".to_string()));
    assert_eq!(ic.deployment, None);
    assert!(ic.commands.is_empty());
    assert_eq!(standard.faf_version, "2.5.0");
    assert_eq!(standard.project, faf.data.project);
    assert_eq!(standard.ai_score, Some("91%".to_string()));
    assert_eq!(standard.ai_confidence, None);
    assert_eq!(standard.ai_tldr, None);
    assert_eq!(standard.stack, faf.data.stack);
    assert_eq!(standard.context_quality, None);
    assert_eq!(standard.human_context, None);
    assert_eq!(standard.preferences, None);
    assert_eq!(standard.state, None);
    assert!(standard.tags.is_empty());
}

#[test]
fn standard_keeps_fewer_than_five_key_files_as_they_are() {
    let content = "faf_version: 1\nproject:\n  name: x\ninstant_context:\n  key_files: [a, b, c]\n";
    let faf = parse(content).unwrap();
    let standard = compress(&faf, CompressionLevel::Standard);
    assert_eq!(standard.instant_context.unwrap().key_files, vec!["a", "b", "c"]);
}

#[test]
fn minimal_keeps_tech_stack_and_drops_what_building() {
    let faf = rich_document();
    let minimal = compress(&faf, CompressionLevel::Minimal);
    let expected = FafData {
        faf_version: "2.5.0".to_string(),
        project: Project {
            name: "rich".to_string(),
            goal: Some("Everything".to_string()),
            main_language: None,
            approach: None,
            version: None,
            license: None,
        },
        ai_score: None,
        ai_confidence: None,
        ai_tldr: None,
        instant_context: Some(InstantContext {
            what_building: None,
            tech_stack: Some("Rust, YAML".to_string()),
            deployment: None,
            key_files: Vec::new(),
            commands: StringMap::new(),
        }),
        context_quality: None,
        stack: None,
        human_context: None,
        preferences: None,
        state: None,
        tags: Vec::new(),
    };
    assert_eq!(minimal, expected);
}

#[test]
fn compression_leaves_the_input_alone() {
    let faf = rich_document();
    let before = faf.clone();
    let _ = compress(&faf, CompressionLevel::Minimal);
    let _ = compress(&faf, CompressionLevel::Standard);
    assert_eq!(faf, before);
}

#[test]
fn levels_nest() {
    let faf = rich_document();
    let standard = FafFile { data: compress(&faf, CompressionLevel::Standard), path: None };
    let minimal = compress(&faf, CompressionLevel::Minimal);
    assert_eq!(compress(&standard, CompressionLevel::Minimal), minimal);
    assert_eq!(compress(&standard, CompressionLevel::Standard), standard.data);
}

#[test]
fn absent_instant_context_stays_absent() {
    let faf = parse("faf_version: 1\nproject:\n  name: x\n").unwrap();
    assert_eq!(compress(&faf, CompressionLevel::Minimal).instant_context, None);
    assert_eq!(compress(&faf, CompressionLevel::Standard).instant_context, None);
}

#[test]
fn token_estimates_are_fixed() {
    assert_eq!(estimate_tokens(CompressionLevel::Minimal), 150);
    assert_eq!(estimate_tokens(CompressionLevel::Standard), 400);
    assert_eq!(estimate_tokens(CompressionLevel::Full), 800);
}
