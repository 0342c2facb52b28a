use faf_rust_sdk::yaml::find;
use faf_rust_sdk::yaml_text::read_yaml;
use faf_rust_sdk::{decode_document, encode_document, parse, FafError, YamlNode};

fn text(s: &str) -> YamlNode {
    YamlNode::Text(s.to_string())
}

fn entry(key: &str, value: YamlNode) -> (YamlNode, YamlNode) {
    (text(key), value)
}

fn minimal_tree() -> Vec<(YamlNode, YamlNode)> {
    vec![
        entry("faf_version", text("2.5.0")),
        entry("project", YamlNode::Mapping(vec![entry("name", text("tree"))])),
    ]
}

#[test]
fn read_yaml_gives_the_tree() {
    let tree = read_yaml("a: 1\nb: [x, true, ~, 2.5]\nc: !tag {d: e}\n").unwrap();
    let expected = YamlNode::Mapping(vec![
        entry("a", YamlNode::Number("1".to_string())),
        entry(
            "b",
            YamlNode::Sequence(vec![
                text("x"),
                YamlNode::Bool(true),
                YamlNode::Null,
                YamlNode::Number("2.5".to_string()),
            ]),
        ),
        entry(
            "c",
            YamlNode::Tagged(
                "!tag".to_string(),
                Box::new(YamlNode::Mapping(vec![entry("d", text("e"))])),
            ),
        ),
    ]);
    assert_eq!(tree, expected);
}

#[test]
fn read_yaml_keeps_the_order_of_entries() {
    let tree = read_yaml("z: 1\na: 2\nm: 3\n").unwrap();
    match tree {
        YamlNode::Mapping(entries) => {
            let keys: Vec<&YamlNode> = entries.iter().map(|e| &e.0).collect();
            assert_eq!(keys, vec![&text("z"), &text("a"), &text("m")]);
        }
        other => panic!("expected a mapping, got {:?}", other),
    }
}

#[test]
fn read_yaml_reports_the_readers_message() {
    let message = read_yaml("a: [").unwrap_err();
    assert!(!message.is_empty());
    assert_ne!(message, "a: [");
}

#[test]
fn find_takes_the_first_entry_with_the_key() {
    let entries = vec![
        (YamlNode::Number("1".to_string()), text("number")),
        entry("a", text("first")),
        (YamlNode::Tagged("!t".to_string(), Box::new(text("b"))), text("tagged")),
        entry("a", text("second")),
    ];
    assert_eq!(find(&entries, "a"), Some(&text("first")));
    assert_eq!(find(&entries, "b"), Some(&text("tagged")));
    assert_eq!(find(&entries, "1"), None);
    assert_eq!(find(&entries, "c"), None);
}

#[test]
fn scalar_text_of_each_kind() {
    assert_eq!(text("s").scalar_text(), Some("s".to_string()));
    assert_eq!(YamlNode::Number("1.5".to_string()).scalar_text(), Some("1.5".to_string()));
    assert_eq!(YamlNode::Bool(true).scalar_text(), Some("true".to_string()));
    assert_eq!(YamlNode::Bool(false).scalar_text(), Some("false".to_string()));
    assert_eq!(YamlNode::Null.scalar_text(), Some(String::new()));
    assert_eq!(YamlNode::Sequence(vec![]).scalar_text(), None);
    assert_eq!(YamlNode::Mapping(vec![]).scalar_text(), None);
    let tagged = YamlNode::Tagged(
        "!a".to_string(),
        Box::new(YamlNode::Tagged("!b".to_string(), Box::new(text("deep")))),
    );
    assert_eq!(tagged.scalar_text(), Some("deep".to_string()));
    assert_eq!(tagged.untagged(), &text("deep"));
    assert!(!tagged.is_null());
    assert!(YamlNode::Tagged("!a".to_string(), Box::new(YamlNode::Null)).is_null());
}

#[test]
fn decode_minimal_tree() {
    let data = decode_document(&YamlNode::Mapping(minimal_tree())).unwrap();
    assert_eq!(data.faf_version, "2.5.0");
    assert_eq!(data.project.name, "tree");
    assert_eq!(data.project.goal, None);
    assert_eq!(data.instant_context, None);
    assert!(data.tags.is_empty());
}

#[test]
fn decode_refuses_what_is_no_mapping() {
    assert_eq!(
        decode_document(&text("x")),
        Err(FafError::YamlError("document: invalid type, expected a mapping".to_string()))
    );
    assert_eq!(
        decode_document(&YamlNode::Null),
        Err(FafError::MissingField("faf_version".to_string()))
    );
    assert_eq!(
        decode_document(&YamlNode::Mapping(vec![])),
        Err(FafError::MissingField("faf_version".to_string()))
    );
}

#[test]
fn decode_takes_the_first_of_two_entries_with_one_key() {
    let mut tree = minimal_tree();
    tree.push(entry("faf_version", text("later")));
    let data = decode_document(&YamlNode::Mapping(tree)).unwrap();
    assert_eq!(data.faf_version, "2.5.0");
}

#[test]
fn decode_sets_the_entries_of_a_mapping_one_after_the_other() {
    let mut tree = minimal_tree();
    tree.push(entry(
        "ai_tldr",
        YamlNode::Mapping(vec![
            entry("a", text("1")),
            entry("b", text("2")),
            entry("a", text("3")),
            (YamlNode::Number("7".to_string()), YamlNode::Bool(false)),
        ]),
    ));
    let data = decode_document(&YamlNode::Mapping(tree)).unwrap();
    let tldr = data.ai_tldr.unwrap();
    assert_eq!(tldr.len(), 3);
    assert_eq!(tldr.key_at(0), "a");
    assert_eq!(tldr.value_at(0), "3");
    assert_eq!(tldr.key_at(1), "b");
    assert_eq!(tldr.value_at(1), "2");
    assert_eq!(tldr.get("7"), Some("false"));
}

#[test]
fn decode_refuses_a_scalar_key_files() {
    let mut tree = minimal_tree();
    tree.push(entry(
        "instant_context",
        YamlNode::Mapping(vec![entry("key_files", text("main.rs"))]),
    ));
    assert_eq!(
        decode_document(&YamlNode::Mapping(tree)),
        Err(FafError::YamlError(
            "instant_context.key_files: invalid type, expected a sequence of strings".to_string()
        ))
    );
}

#[test]
fn encode_leaves_out_what_is_absent_or_empty() {
    let faf = parse("faf_version: 2.5.0\nproject:\n  name: tree\ninstant_context:\n  key_files: []\ntags: []\n").unwrap();
    let tree = encode_document(&faf.data);
    let expected = YamlNode::Mapping(vec![
        entry("faf_version", text("2.5.0")),
        entry("project", YamlNode::Mapping(vec![entry("name", text("tree"))])),
        entry("instant_context", YamlNode::Mapping(vec![])),
    ]);
    assert_eq!(tree, expected);
}

#[test]
fn encode_writes_the_fields_in_order() {
    let content = r#"
tags: [t]
state: {milestones: [m], phase: p}
context_quality: {handoff_ready: true}
human_context: {where: here, why: because}
ai_tldr: {k: v}
project: {goal: g, name: n}
faf_version: "1"
"#;
    let faf = parse(content).unwrap();
    let tree = encode_document(&faf.data);
    let expected = YamlNode::Mapping(vec![
        entry("faf_version", text("1")),
        entry("project", YamlNode::Mapping(vec![entry("name", text("n")), entry("goal", text("g"))])),
        entry("ai_tldr", YamlNode::Mapping(vec![entry("k", text("v"))])),
        entry("context_quality", YamlNode::Mapping(vec![entry("handoff_ready", YamlNode::Bool(true))])),
        entry(
            "human_context",
            YamlNode::Mapping(vec![entry("why", text("because")), entry("where", text("here"))]),
        ),
        entry(
            "state",
            YamlNode::Mapping(vec![
                entry("phase", text("p")),
                entry("milestones", YamlNode::Sequence(vec![text("m")])),
            ]),
        ),
        entry("tags", YamlNode::Sequence(vec![text("t")])),
    ]);
    assert_eq!(tree, expected);
    assert_eq!(decode_document(&tree).unwrap(), faf.data);
}
