//! Writing a document as a YAML tree: which fields are written, under which
//! keys and in which order. What is absent or empty is left out.

use vstd::prelude::*;
use vstd::string::StringExecFns;
use crate::string_map::{Entries, StringMap};
use crate::types::{
    ContextQuality, ContextQualityView, FafData, FafDataView, HumanContext, HumanContextView,
    InstantContext, InstantContextView, Preferences, PreferencesView, Project, ProjectView, Stack,
    StackView, State, StateView,
};
use crate::yaml::{nodes_model, pairs_model, with_field, Pairs, YamlNode, YamlValue};

verus! {

/// A string that may be absent, as a field: absent stays absent.
pub open spec fn text_field(text: Option<Seq<char>>) -> Option<YamlValue> {
    match text {
        Some(t) => Some(YamlValue::Text(t)),
        None => None,
    }
}

/// A list of strings as a sequence of strings, in order.
pub open spec fn texts_value(items: Seq<Seq<char>>) -> YamlValue {
    YamlValue::Sequence(Seq::new(items.len(), |i: int| YamlValue::Text(items[i])))
}

/// A list of strings as a field: an empty list is left out.
pub open spec fn list_field(items: Seq<Seq<char>>) -> Option<YamlValue> {
    if items.len() == 0 {
        None
    } else {
        Some(texts_value(items))
    }
}

/// A mapping of strings as a mapping from string to string, in order.
pub open spec fn entries_value(entries: Entries) -> YamlValue {
    YamlValue::Mapping(
        Seq::new(
            entries.len(),
            |i: int| (YamlValue::Text(entries[i].0), YamlValue::Text(entries[i].1)),
        ),
    )
}

/// A mapping of strings as a field: an empty mapping is left out.
pub open spec fn map_field(entries: Entries) -> Option<YamlValue> {
    if entries.len() == 0 {
        None
    } else {
        Some(entries_value(entries))
    }
}

/// A mapping of strings that may be absent, as a field: absent stays absent,
/// an empty mapping is written.
pub open spec fn optional_map_field(entries: Option<Entries>) -> Option<YamlValue> {
    match entries {
        Some(e) => Some(entries_value(e)),
        None => None,
    }
}

/// A section that may be absent, as a field.
pub open spec fn section_field<T>(section: Option<T>, write: spec_fn(T) -> YamlValue) -> Option<
    YamlValue,
> {
    match section {
        Some(s) => Some(write(s)),
        None => None,
    }
}

/// Adds the field `key` to `out` where there is a value.
fn put(out: &mut Vec<(YamlNode, YamlNode)>, key: &str, value: Option<YamlNode>)
    ensures
        pairs_model(final(out)@) == with_field(pairs_model(old(out)@), key@, value.deep_view()),
{
    match value {
        Some(v) => {
            out.push((YamlNode::Text(String::from_str(key)), v));
            assert(pairs_model(out@) =~= pairs_model(old(out)@).push(
                (YamlValue::Text(key@), v.model()),
            ));
        },
        None => {},
    }
}

/// A string as a node.
fn text_node(text: &String) -> (node: YamlNode)
    ensures
        node@ == YamlValue::Text(text@),
{
    YamlNode::Text(text.clone())
}

/// A string that may be absent, as a field.
fn text_field_node(text: &Option<String>) -> (node: Option<YamlNode>)
    ensures
        node.deep_view() == text_field(text.deep_view()),
{
    match text {
        Some(t) => Some(text_node(t)),
        None => None,
    }
}

/// A list of strings as a field.
fn list_field_node(items: &Vec<String>) -> (node: Option<YamlNode>)
    ensures
        node.deep_view() == list_field(items.deep_view()),
{
    if items.len() == 0 {
        return None;
    }
    let mut nodes: Vec<YamlNode> = Vec::new();
    let mut i: usize = 0;
    while i < items.len()
        invariant
            i <= items.len(),
            nodes.len() == i,
            forall|j: int|
                0 <= j < i ==> (#[trigger] nodes@[j]).model() == YamlValue::Text(items@[j]@),
        decreases items.len() - i,
    {
        nodes.push(text_node(&items[i]));
        i += 1;
    }
    proof {
        YamlNode::lemma_sequence_model(nodes);
        assert(nodes_model(nodes@) =~= texts_value(items.deep_view())->Sequence_0);
    }
    Some(YamlNode::Sequence(nodes))
}

/// A mapping of strings as a node.
fn entries_node(map: &StringMap) -> (node: YamlNode)
    ensures
        node@ == entries_value(map@),
{
    let mut nodes: Vec<(YamlNode, YamlNode)> = Vec::new();
    let n = map.len();
    let mut i: usize = 0;
    while i < n
        invariant
            n == map@.len(),
            i <= n,
            nodes.len() == i,
            forall|j: int|
                0 <= j < i ==> (#[trigger] nodes@[j]).0.model() == YamlValue::Text(map@[j].0)
                    && nodes@[j].1.model() == YamlValue::Text(map@[j].1),
        decreases n - i,
    {
        let key = YamlNode::Text(String::from_str(map.key_at(i)));
        let value = YamlNode::Text(String::from_str(map.value_at(i)));
        nodes.push((key, value));
        i += 1;
    }
    proof {
        YamlNode::lemma_mapping_model(nodes);
        assert(pairs_model(nodes@) =~= entries_value(map@)->Mapping_0);
    }
    YamlNode::Mapping(nodes)
}

/// A mapping of strings as a field.
fn map_field_node(map: &StringMap) -> (node: Option<YamlNode>)
    ensures
        node.deep_view() == map_field(map@),
{
    if map.is_empty() {
        None
    } else {
        Some(entries_node(map))
    }
}

/// A mapping of strings that may be absent, as a field.
fn optional_map_field_node(map: &Option<StringMap>) -> (node: Option<YamlNode>)
    ensures
        node.deep_view() == optional_map_field(map.deep_view()),
{
    match map {
        Some(m) => Some(entries_node(m)),
        None => None,
    }
}


/// The project section as a mapping.
pub open spec fn project_value(s: ProjectView) -> YamlValue {
    YamlValue::Mapping(project_fields(s))
}

/// The entries of the project section: its fields in the order of their
/// declaration, without those that are absent or empty.
pub open spec fn project_fields(s: ProjectView) -> Pairs {
    let f0 = Pairs::empty();
    let f1 = with_field(f0, "name"@, Some(YamlValue::Text(s.name)));
    let f2 = with_field(f1, "goal"@, text_field(s.goal));
    let f3 = with_field(f2, "main_language"@, text_field(s.main_language));
    let f4 = with_field(f3, "approach"@, text_field(s.approach));
    let f5 = with_field(f4, "version"@, text_field(s.version));
    let f6 = with_field(f5, "license"@, text_field(s.license));
    f6
}

/// Writes the project section as a node.
pub fn encode_project(s: &Project) -> (node: YamlNode)
    ensures
        node@ == project_value(s@),
{
    let mut out: Vec<(YamlNode, YamlNode)> = Vec::new();
    assert(pairs_model(out@) =~= Pairs::empty());
    put(&mut out, "name", Some(text_node(&s.name)));
    put(&mut out, "goal", text_field_node(&s.goal));
    put(&mut out, "main_language", text_field_node(&s.main_language));
    put(&mut out, "approach", text_field_node(&s.approach));
    put(&mut out, "version", text_field_node(&s.version));
    put(&mut out, "license", text_field_node(&s.license));
    proof {
        YamlNode::lemma_mapping_model(out);
    }
    YamlNode::Mapping(out)
}

/// The instant context as a mapping.
pub open spec fn instant_context_value(s: InstantContextView) -> YamlValue {
    YamlValue::Mapping(instant_context_fields(s))
}

/// The entries of the instant context: its fields in the order of their
/// declaration, without those that are absent or empty.
pub open spec fn instant_context_fields(s: InstantContextView) -> Pairs {
    let f0 = Pairs::empty();
    let f1 = with_field(f0, "what_building"@, text_field(s.what_building));
    let f2 = with_field(f1, "tech_stack"@, text_field(s.tech_stack));
    let f3 = with_field(f2, "deployment"@, text_field(s.deployment));
    let f4 = with_field(f3, "key_files"@, list_field(s.key_files));
    let f5 = with_field(f4, "commands"@, map_field(s.commands));
    f5
}

/// Writes the instant context as a node.
pub fn encode_instant_context(s: &InstantContext) -> (node: YamlNode)
    ensures
        node@ == instant_context_value(s@),
{
    let mut out: Vec<(YamlNode, YamlNode)> = Vec::new();
    assert(pairs_model(out@) =~= Pairs::empty());
    put(&mut out, "what_building", text_field_node(&s.what_building));
    put(&mut out, "tech_stack", text_field_node(&s.tech_stack));
    put(&mut out, "deployment", text_field_node(&s.deployment));
    put(&mut out, "key_files", list_field_node(&s.key_files));
    put(&mut out, "commands", map_field_node(&s.commands));
    proof {
        YamlNode::lemma_mapping_model(out);
    }
    YamlNode::Mapping(out)
}

/// The stack section as a mapping.
pub open spec fn stack_value(s: StackView) -> YamlValue {
    YamlValue::Mapping(stack_fields(s))
}

/// The entries of the stack section: its fields in the order of their
/// declaration, without those that are absent or empty.
pub open spec fn stack_fields(s: StackView) -> Pairs {
    let f0 = Pairs::empty();
    let f1 = with_field(f0, "frontend"@, text_field(s.frontend));
    let f2 = with_field(f1, "backend"@, text_field(s.backend));
    let f3 = with_field(f2, "database"@, text_field(s.database));
    let f4 = with_field(f3, "infrastructure"@, text_field(s.infrastructure));
    let f5 = with_field(f4, "build_tool"@, text_field(s.build_tool));
    let f6 = with_field(f5, "testing"@, text_field(s.testing));
    let f7 = with_field(f6, "cicd"@, text_field(s.cicd));
    f7
}

/// Writes the stack section as a node.
pub fn encode_stack(s: &Stack) -> (node: YamlNode)
    ensures
        node@ == stack_value(s@),
{
    let mut out: Vec<(YamlNode, YamlNode)> = Vec::new();
    assert(pairs_model(out@) =~= Pairs::empty());
    put(&mut out, "frontend", text_field_node(&s.frontend));
    put(&mut out, "backend", text_field_node(&s.backend));
    put(&mut out, "database", text_field_node(&s.database));
    put(&mut out, "infrastructure", text_field_node(&s.infrastructure));
    put(&mut out, "build_tool", text_field_node(&s.build_tool));
    put(&mut out, "testing", text_field_node(&s.testing));
    put(&mut out, "cicd", text_field_node(&s.cicd));
    proof {
        YamlNode::lemma_mapping_model(out);
    }
    YamlNode::Mapping(out)
}

/// The context quality section as a mapping.
pub open spec fn context_quality_value(s: ContextQualityView) -> YamlValue {
    YamlValue::Mapping(context_quality_fields(s))
}

/// The entries of the context quality section: its fields in the order of their
/// declaration, without those that are absent or empty.
pub open spec fn context_quality_fields(s: ContextQualityView) -> Pairs {
    let f0 = Pairs::empty();
    let f1 = with_field(f0, "slots_filled"@, text_field(s.slots_filled));
    let f2 = with_field(f1, "confidence"@, text_field(s.confidence));
    let f3 = with_field(f2, "handoff_ready"@, Some(YamlValue::Bool(s.handoff_ready)));
    let f4 = with_field(f3, "missing_context"@, list_field(s.missing_context));
    f4
}

/// Writes the context quality section as a node.
pub fn encode_context_quality(s: &ContextQuality) -> (node: YamlNode)
    ensures
        node@ == context_quality_value(s@),
{
    let mut out: Vec<(YamlNode, YamlNode)> = Vec::new();
    assert(pairs_model(out@) =~= Pairs::empty());
    put(&mut out, "slots_filled", text_field_node(&s.slots_filled));
    put(&mut out, "confidence", text_field_node(&s.confidence));
    put(&mut out, "handoff_ready", Some(YamlNode::Bool(s.handoff_ready)));
    put(&mut out, "missing_context", list_field_node(&s.missing_context));
    proof {
        YamlNode::lemma_mapping_model(out);
    }
    YamlNode::Mapping(out)
}

/// The human context as a mapping.
pub open spec fn human_context_value(s: HumanContextView) -> YamlValue {
    YamlValue::Mapping(human_context_fields(s))
}

/// The entries of the human context: its fields in the order of their
/// declaration, without those that are absent or empty.
pub open spec fn human_context_fields(s: HumanContextView) -> Pairs {
    let f0 = Pairs::empty();
    let f1 = with_field(f0, "who"@, text_field(s.who));
    let f2 = with_field(f1, "what"@, text_field(s.what));
    let f3 = with_field(f2, "why"@, text_field(s.why_field));
    let f4 = with_field(f3, "how"@, text_field(s.how));
    let f5 = with_field(f4, "where"@, text_field(s.where_field));
    let f6 = with_field(f5, "when"@, text_field(s.when));
    f6
}

/// Writes the human context as a node.
pub fn encode_human_context(s: &HumanContext) -> (node: YamlNode)
    ensures
        node@ == human_context_value(s@),
{
    let mut out: Vec<(YamlNode, YamlNode)> = Vec::new();
    assert(pairs_model(out@) =~= Pairs::empty());
    put(&mut out, "who", text_field_node(&s.who));
    put(&mut out, "what", text_field_node(&s.what));
    put(&mut out, "why", text_field_node(&s.why_field));
    put(&mut out, "how", text_field_node(&s.how));
    put(&mut out, "where", text_field_node(&s.where_field));
    put(&mut out, "when", text_field_node(&s.when));
    proof {
        YamlNode::lemma_mapping_model(out);
    }
    YamlNode::Mapping(out)
}

/// The preferences section as a mapping.
pub open spec fn preferences_value(s: PreferencesView) -> YamlValue {
    YamlValue::Mapping(preferences_fields(s))
}

/// The entries of the preferences section: its fields in the order of their
/// declaration, without those that are absent or empty.
pub open spec fn preferences_fields(s: PreferencesView) -> Pairs {
    let f0 = Pairs::empty();
    let f1 = with_field(f0, "quality_bar"@, text_field(s.quality_bar));
    let f2 = with_field(f1, "testing"@, text_field(s.testing));
    let f3 = with_field(f2, "documentation"@, text_field(s.documentation));
    let f4 = with_field(f3, "code_style"@, text_field(s.code_style));
    f4
}

/// Writes the preferences section as a node.
pub fn encode_preferences(s: &Preferences) -> (node: YamlNode)
    ensures
        node@ == preferences_value(s@),
{
    let mut out: Vec<(YamlNode, YamlNode)> = Vec::new();
    assert(pairs_model(out@) =~= Pairs::empty());
    put(&mut out, "quality_bar", text_field_node(&s.quality_bar));
    put(&mut out, "testing", text_field_node(&s.testing));
    put(&mut out, "documentation", text_field_node(&s.documentation));
    put(&mut out, "code_style", text_field_node(&s.code_style));
    proof {
        YamlNode::lemma_mapping_model(out);
    }
    YamlNode::Mapping(out)
}

/// The state section as a mapping.
pub open spec fn state_value(s: StateView) -> YamlValue {
    YamlValue::Mapping(state_fields(s))
}

/// The entries of the state section: its fields in the order of their
/// declaration, without those that are absent or empty.
pub open spec fn state_fields(s: StateView) -> Pairs {
    let f0 = Pairs::empty();
    let f1 = with_field(f0, "phase"@, text_field(s.phase));
    let f2 = with_field(f1, "version"@, text_field(s.version));
    let f3 = with_field(f2, "focus"@, text_field(s.focus));
    let f4 = with_field(f3, "milestones"@, list_field(s.milestones));
    f4
}

/// Writes the state section as a node.
pub fn encode_state(s: &State) -> (node: YamlNode)
    ensures
        node@ == state_value(s@),
{
    let mut out: Vec<(YamlNode, YamlNode)> = Vec::new();
    assert(pairs_model(out@) =~= Pairs::empty());
    put(&mut out, "phase", text_field_node(&s.phase));
    put(&mut out, "version", text_field_node(&s.version));
    put(&mut out, "focus", text_field_node(&s.focus));
    put(&mut out, "milestones", list_field_node(&s.milestones));
    proof {
        YamlNode::lemma_mapping_model(out);
    }
    YamlNode::Mapping(out)
}

/// A document as a mapping.
pub open spec fn document_value(d: FafDataView) -> YamlValue {
    YamlValue::Mapping(document_fields(d))
}

/// The entries of a document: its fields in the order of their
/// declaration, without those that are absent or empty.
pub open spec fn document_fields(d: FafDataView) -> Pairs {
    let f0 = Pairs::empty();
    let f1 = with_field(f0, "faf_version"@, Some(YamlValue::Text(d.faf_version)));
    let f2 = with_field(f1, "project"@, Some(project_value(d.project)));
    let f3 = with_field(f2, "ai_score"@, text_field(d.ai_score));
    let f4 = with_field(f3, "ai_confidence"@, text_field(d.ai_confidence));
    let f5 = with_field(f4, "ai_tldr"@, optional_map_field(d.ai_tldr));
    let f6 = with_field(
        f5,
        "instant_context"@,
        section_field(d.instant_context, |x: InstantContextView| instant_context_value(x)),
    );
    let f7 = with_field(
        f6,
        "context_quality"@,
        section_field(d.context_quality, |x: ContextQualityView| context_quality_value(x)),
    );
    let f8 = with_field(f7, "stack"@, section_field(d.stack, |x: StackView| stack_value(x)));
    let f9 = with_field(
        f8,
        "human_context"@,
        section_field(d.human_context, |x: HumanContextView| human_context_value(x)),
    );
    let f10 = with_field(
        f9,
        "preferences"@,
        section_field(d.preferences, |x: PreferencesView| preferences_value(x)),
    );
    let f11 = with_field(f10, "state"@, section_field(d.state, |x: StateView| state_value(x)));
    let f12 = with_field(f11, "tags"@, list_field(d.tags));
    f12
}

/// Writes a document as a node.
pub fn encode_document(d: &FafData) -> (node: YamlNode)
    ensures
        node@ == document_value(d@),
{
    let mut out: Vec<(YamlNode, YamlNode)> = Vec::new();
    assert(pairs_model(out@) =~= Pairs::empty());
    put(&mut out, "faf_version", Some(text_node(&d.faf_version)));
    put(&mut out, "project", Some(encode_project(&d.project)));
    put(&mut out, "ai_score", text_field_node(&d.ai_score));
    put(&mut out, "ai_confidence", text_field_node(&d.ai_confidence));
    put(&mut out, "ai_tldr", optional_map_field_node(&d.ai_tldr));
    let instant_context = match &d.instant_context {
        Some(x) => Some(encode_instant_context(x)),
        None => None,
    };
    put(&mut out, "instant_context", instant_context);
    let context_quality = match &d.context_quality {
        Some(x) => Some(encode_context_quality(x)),
        None => None,
    };
    put(&mut out, "context_quality", context_quality);
    let stack = match &d.stack {
        Some(x) => Some(encode_stack(x)),
        None => None,
    };
    put(&mut out, "stack", stack);
    let human_context = match &d.human_context {
        Some(x) => Some(encode_human_context(x)),
        None => None,
    };
    put(&mut out, "human_context", human_context);
    let preferences = match &d.preferences {
        Some(x) => Some(encode_preferences(x)),
        None => None,
    };
    put(&mut out, "preferences", preferences);
    let state = match &d.state {
        Some(x) => Some(encode_state(x)),
        None => None,
    };
    put(&mut out, "state", state);
    put(&mut out, "tags", list_field_node(&d.tags));
    proof {
        YamlNode::lemma_mapping_model(out);
    }
    YamlNode::Mapping(out)
}

} // verus!
