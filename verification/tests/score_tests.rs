use faf_rust_sdk::{
    calculate_score, parse, parse_score, validate, FafData, FafFile, HumanContext, InstantContext,
    Project, Stack, State, StringMap,
};

fn with_score(raw: &str) -> FafFile {
    let mut faf = parse("faf_version: 2.5.0\nproject:\n  name: test\n").unwrap();
    faf.data.ai_score = Some(raw.to_string());
    faf
}

#[test]
fn score_table() {
    assert_eq!(with_score("85%").score(), Some(85));
    assert_eq!(with_score("0%").score(), Some(0));
    assert_eq!(with_score("100%").score(), Some(100));
    assert_eq!(with_score("85 %").score(), None);
    assert_eq!(with_score("85%%").score(), Some(85));
    assert_eq!(with_score("85").score(), Some(85));
    assert_eq!(with_score("-5%").score(), None);
    assert_eq!(with_score("256%").score(), None);
    assert_eq!(with_score("85.5%").score(), None);
    assert_eq!(with_score("HIGH").score(), None);
}

#[test]
fn score_is_the_same_on_every_call() {
    let faf = with_score("85%%");
    assert_eq!(faf.score(), faf.score());
    assert_eq!(faf.score(), Some(85));
}

#[test]
fn score_edges() {
    assert_eq!(parse_score(""), None);
    assert_eq!(parse_score("%"), None);
    assert_eq!(parse_score("%%%"), None);
    assert_eq!(parse_score("255"), Some(255));
    assert_eq!(parse_score("255%"), Some(255));
    assert_eq!(parse_score("0255"), Some(255));
    assert_eq!(parse_score("000000000000000000000000000007"), Some(7));
    assert_eq!(parse_score("99999999999999999999999999999999999999"), None);
    assert_eq!(parse_score("+85%"), Some(85));
    assert_eq!(parse_score("+"), None);
    assert_eq!(parse_score("+%"), None);
    assert_eq!(parse_score("++5"), None);
    assert_eq!(parse_score("-0"), None);
    assert_eq!(parse_score(" 85%"), None);
    assert_eq!(parse_score("8%5%"), None);
    assert_eq!(parse_score("%85"), None);
    assert_eq!(parse_score("８５"), None);
    assert_eq!(parse_score("1e2"), None);
}

#[test]
fn score_agrees_with_std_on_every_short_numeral() {
    for n in 0..1000u32 {
        let text = n.to_string();
        assert_eq!(parse_score(&text), text.parse::<u8>().ok());
        let signed = format!("+{}%", n);
        assert_eq!(parse_score(&signed), signed.trim_end_matches('%').parse::<u8>().ok());
    }
}

#[test]
fn absent_score_is_none() {
    let faf = parse("faf_version: 2.5.0\nproject:\n  name: test\n").unwrap();
    assert_eq!(faf.score(), None);
    assert!(!faf.is_high_quality());
}

#[test]
fn high_quality_boundary() {
    assert!(with_score("70%").is_high_quality());
    assert!(!with_score("69%").is_high_quality());
    assert!(with_score("255").is_high_quality());
    assert!(!with_score("256").is_high_quality());
    assert!(!with_score("HIGH").is_high_quality());
}

fn bare(version: &str, name: &str) -> FafFile {
    FafFile {
        data: FafData {
            faf_version: version.to_string(),
            project: Project {
                name: name.to_string(),
                goal: None,
                main_language: None,
                approach: None,
                version: None,
                license: None,
            },
            ai_score: None,
            ai_confidence: None,
            ai_tldr: None,
            instant_context: None,
            context_quality: None,
            stack: None,
            human_context: None,
            preferences: None,
            state: None,
            tags: Vec::new(),
        },
        path: None,
    }
}

fn empty_instant_context() -> InstantContext {
    InstantContext {
        what_building: None,
        tech_stack: None,
        deployment: None,
        key_files: Vec::new(),
        commands: StringMap::new(),
    }
}

fn empty_stack() -> Stack {
    Stack {
        frontend: None,
        backend: None,
        database: None,
        infrastructure: None,
        build_tool: None,
        testing: None,
        cicd: None,
    }
}

fn empty_human_context() -> HumanContext {
    HumanContext {
        who: None,
        what: None,
        why_field: None,
        how: None,
        where_field: None,
        when: None,
    }
}

fn empty_state() -> State {
    State { phase: None, version: None, focus: None, milestones: Vec::new() }
}

#[test]
fn minimal_document_scores_twenty() {
    let faf = bare("2.5.0", "test");
    let result = validate(&faf);
    assert!(result.valid);
    assert!(result.errors.is_empty());
    assert_eq!(result.score, 20);
    assert_eq!(calculate_score(&faf), 20);
}

#[test]
fn complete_document_scores_hundred() {
    let mut faf = bare("2.5.0", "test");
    faf.data.project.goal = Some("goal".to_string());
    let mut ic = empty_instant_context();
    ic.what_building = Some("app".to_string());
    ic.tech_stack = Some("Rust".to_string());
    ic.key_files = vec!["main.rs".to_string()];
    faf.data.instant_context = Some(ic);
    faf.data.stack = Some(empty_stack());
    faf.data.human_context = Some(empty_human_context());
    faf.data.tags = vec!["rust".to_string()];
    faf.data.state = Some(empty_state());
    let result = validate(&faf);
    assert!(result.valid);
    assert_eq!(result.score, 100);
    assert!(result.warnings.is_empty());
}

#[test]
fn each_weight_counts_once() {
    let base = bare("2.5.0", "test");
    assert_eq!(calculate_score(&bare("", "")), 0);
    assert_eq!(calculate_score(&bare("1", "")), 10);
    assert_eq!(calculate_score(&bare("", "n")), 10);

    let mut faf = base.clone();
    faf.data.project.goal = Some(String::new());
    assert_eq!(calculate_score(&faf), 30);

    let mut faf = base.clone();
    faf.data.instant_context = Some(empty_instant_context());
    assert_eq!(calculate_score(&faf), 20);

    let mut faf = base.clone();
    let mut ic = empty_instant_context();
    ic.what_building = Some("x".to_string());
    faf.data.instant_context = Some(ic);
    assert_eq!(calculate_score(&faf), 30);

    let mut faf = base.clone();
    let mut ic = empty_instant_context();
    ic.tech_stack = Some("x".to_string());
    faf.data.instant_context = Some(ic);
    assert_eq!(calculate_score(&faf), 30);

    let mut faf = base.clone();
    let mut ic = empty_instant_context();
    ic.key_files = vec!["a".to_string(), "b".to_string()];
    faf.data.instant_context = Some(ic);
    assert_eq!(calculate_score(&faf), 30);

    let mut faf = base.clone();
    faf.data.stack = Some(empty_stack());
    assert_eq!(calculate_score(&faf), 35);

    let mut faf = base.clone();
    faf.data.human_context = Some(empty_human_context());
    assert_eq!(calculate_score(&faf), 35);

    let mut faf = base.clone();
    faf.data.tags = vec!["t".to_string()];
    assert_eq!(calculate_score(&faf), 25);

    let mut faf = base.clone();
    faf.data.state = Some(empty_state());
    assert_eq!(calculate_score(&faf), 25);
}

#[test]
fn errors_and_warnings_in_order() {
    let faf = bare("", "");
    let result = validate(&faf);
    assert!(!result.valid);
    assert_eq!(result.errors, vec!["Missing faf_version", "Missing project.name"]);
    assert_eq!(
        result.warnings,
        vec![
            "Missing instant_context section",
            "Missing stack section",
            "Missing human_context section"
        ]
    );
    assert_eq!(result.score, 0);

    let mut faf = bare("1", "");
    faf.data.instant_context = Some(empty_instant_context());
    faf.data.stack = Some(empty_stack());
    let result = validate(&faf);
    assert!(!result.valid);
    assert_eq!(result.errors, vec!["Missing project.name"]);
    assert_eq!(
        result.warnings,
        vec![
            "Missing instant_context.what_building",
            "Missing instant_context.tech_stack",
            "Missing human_context section"
        ]
    );

    let mut faf = bare("", "n");
    let mut ic = empty_instant_context();
    ic.what_building = Some("x".to_string());
    faf.data.instant_context = Some(ic);
    faf.data.human_context = Some(empty_human_context());
    let result = validate(&faf);
    assert_eq!(result.errors, vec!["Missing faf_version"]);
    assert_eq!(
        result.warnings,
        vec!["Missing instant_context.tech_stack", "Missing stack section"]
    );
}

#[test]
fn warnings_do_not_make_a_document_invalid() {
    let faf = bare("2.5.0", "test");
    let result = validate(&faf);
    assert!(result.valid);
    assert_eq!(result.warnings.len(), 3);
}

#[test]
fn validation_leaves_the_input_alone() {
    let faf = bare("2.5.0", "test");
    let before = faf.clone();
    let _ = validate(&faf);
    assert_eq!(faf, before);
}
