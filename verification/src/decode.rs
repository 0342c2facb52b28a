//! Reading a document out of a YAML tree: which keys are looked up, what
//! each may hold, and which fault a tree that does not fit gives.

use vstd::prelude::*;
use vstd::string::StringExecFns;
use crate::parser::{FafError, FafErrorView};
use crate::string_map::{
    distinct_keys, gathered, lemma_gathered_distinct, Entries, StringMap,
};
use crate::types::{
    ContextQuality, ContextQualityView, FafData, FafDataView, HumanContext, HumanContextView,
    InstantContext, InstantContextView, Preferences, PreferencesView, Project, ProjectView, Stack,
    StackView, State, StateView,
};
use crate::yaml::{find, lookup, nodes_model, pairs_model, Pairs, YamlNode, YamlValue};

verus! {

/// What a fallible step gave, by its model.
pub open spec fn outcome<T: DeepView>(r: Result<T, FafError>) -> Result<T::V, FafErrorView> {
    match r {
        Ok(x) => Ok(x.deep_view()),
        Err(e) => Err(e@),
    }
}

/// The fault for a value at `path` that is not `expected`.
pub open spec fn mismatch(path: Seq<char>, expected: Seq<char>) -> FafErrorView {
    FafErrorView::YamlError(path + ": invalid type, expected "@ + expected)
}

/// The entries of the section that `v` holds: those of a mapping, none for
/// null; anything else is a fault.
pub open spec fn section_pairs(v: YamlValue, path: Seq<char>) -> Result<Pairs, FafErrorView> {
    match v.untagged() {
        YamlValue::Mapping(pairs) => Ok(pairs),
        YamlValue::Null => Ok(Pairs::empty()),
        _ => Err(mismatch(path, "a mapping"@)),
    }
}

/// A string that has to be there: an absent key is a missing field, a
/// sequence or a mapping a fault.
pub open spec fn required_text(pairs: Pairs, key: Seq<char>, path: Seq<char>) -> Result<
    Seq<char>,
    FafErrorView,
> {
    match lookup(pairs, key) {
        None => Err(FafErrorView::MissingField(path)),
        Some(v) => match v.scalar_text() {
            Some(t) => Ok(t),
            None => Err(mismatch(path, "a string"@)),
        },
    }
}

/// A string that may be absent: an absent key and null both give none.
pub open spec fn optional_text(pairs: Pairs, key: Seq<char>, path: Seq<char>) -> Result<
    Option<Seq<char>>,
    FafErrorView,
> {
    match lookup(pairs, key) {
        None => Ok(None),
        Some(v) => if v.untagged() is Null {
            Ok(None)
        } else {
            match v.scalar_text() {
                Some(t) => Ok(Some(t)),
                None => Err(mismatch(path, "a string"@)),
            }
        },
    }
}

/// Whether every item is a scalar.
pub open spec fn all_scalars(items: Seq<YamlValue>) -> bool {
    forall|i: int| 0 <= i < items.len() ==> (#[trigger] items[i]).scalar_text() is Some
}

/// The texts of items that are all scalars.
pub open spec fn texts_of(items: Seq<YamlValue>) -> Seq<Seq<char>> {
    Seq::new(items.len(), |i: int| items[i].scalar_text()->0)
}

/// A list of strings: an absent key and null give the empty list, a sequence
/// of scalars their texts in order; anything else is a fault.
pub open spec fn text_list(pairs: Pairs, key: Seq<char>, path: Seq<char>) -> Result<
    Seq<Seq<char>>,
    FafErrorView,
> {
    match lookup(pairs, key) {
        None => Ok(Seq::empty()),
        Some(v) => match v.untagged() {
            YamlValue::Null => Ok(Seq::empty()),
            YamlValue::Sequence(items) => if all_scalars(items) {
                Ok(texts_of(items))
            } else {
                Err(mismatch(path, "a sequence of strings"@))
            },
            _ => Err(mismatch(path, "a sequence of strings"@)),
        },
    }
}

/// Whether every key and every value is a scalar.
pub open spec fn all_scalar_pairs(pairs: Pairs) -> bool {
    forall|i: int|
        0 <= i < pairs.len() ==> (#[trigger] pairs[i]).0.scalar_text() is Some
            && pairs[i].1.scalar_text() is Some
}

/// The texts of entries whose keys and values are all scalars.
pub open spec fn text_pairs_of(pairs: Pairs) -> Entries {
    Seq::new(pairs.len(), |i: int| (pairs[i].0.scalar_text()->0, pairs[i].1.scalar_text()->0))
}

/// The mapping of strings that `v` holds: the entries of a mapping of
/// scalars, set one after the other; anything else is a fault.
pub open spec fn string_map_of(v: YamlValue, path: Seq<char>) -> Result<Entries, FafErrorView> {
    match v.untagged() {
        YamlValue::Mapping(pairs) => if all_scalar_pairs(pairs) {
            Ok(gathered(text_pairs_of(pairs)))
        } else {
            Err(mismatch(path, "a mapping of strings"@))
        },
        _ => Err(mismatch(path, "a mapping of strings"@)),
    }
}

/// A mapping of strings: an absent key and null give the empty mapping.
pub open spec fn text_map(pairs: Pairs, key: Seq<char>, path: Seq<char>) -> Result<
    Entries,
    FafErrorView,
> {
    match lookup(pairs, key) {
        None => Ok(Entries::empty()),
        Some(v) => if v.untagged() is Null {
            Ok(Entries::empty())
        } else {
            string_map_of(v, path)
        },
    }
}

/// A mapping of strings that may be absent: an absent key and null give
/// none.
pub open spec fn optional_text_map(pairs: Pairs, key: Seq<char>, path: Seq<char>) -> Result<
    Option<Entries>,
    FafErrorView,
> {
    match lookup(pairs, key) {
        None => Ok(None),
        Some(v) => if v.untagged() is Null {
            Ok(None)
        } else {
            match string_map_of(v, path) {
                Ok(m) => Ok(Some(m)),
                Err(e) => Err(e),
            }
        },
    }
}

/// A flag: an absent key gives `false`, a boolean itself; anything else is a
/// fault.
pub open spec fn flag(pairs: Pairs, key: Seq<char>, path: Seq<char>) -> Result<
    bool,
    FafErrorView,
> {
    match lookup(pairs, key) {
        None => Ok(false),
        Some(v) => match v.untagged() {
            YamlValue::Bool(b) => Ok(b),
            _ => Err(mismatch(path, "a boolean"@)),
        },
    }
}

/// A section that may be absent: an absent key and null give none, anything
/// else is read by `read`.
pub open spec fn optional_section<T>(
    pairs: Pairs,
    key: Seq<char>,
    read: spec_fn(YamlValue) -> Result<T, FafErrorView>,
) -> Result<Option<T>, FafErrorView> {
    match lookup(pairs, key) {
        None => Ok(None),
        Some(v) => if v.untagged() is Null {
            Ok(None)
        } else {
            match read(v) {
                Ok(x) => Ok(Some(x)),
                Err(e) => Err(e),
            }
        },
    }
}

/// A section that has to be there: an absent key is a missing field.
pub open spec fn required_section<T>(
    pairs: Pairs,
    key: Seq<char>,
    path: Seq<char>,
    read: spec_fn(YamlValue) -> Result<T, FafErrorView>,
) -> Result<T, FafErrorView> {
    match lookup(pairs, key) {
        None => Err(FafErrorView::MissingField(path)),
        Some(v) => read(v),
    }
}

/// The fault for a value at `path` that is not `expected`.
fn mismatch_error(path: &str, expected: &str) -> (e: FafError)
    ensures
        e@ == mismatch(path@, expected@),
{
    FafError::YamlError(
        String::from_str(path).concat(": invalid type, expected ").concat(expected),
    )
}

/// The entries of the section that `node` holds; `empty` stands for those of
/// null.
fn section_entries<'a>(
    node: &'a YamlNode,
    empty: &'a Vec<(YamlNode, YamlNode)>,
    path: &str,
) -> (r: Result<&'a Vec<(YamlNode, YamlNode)>, FafError>)
    requires
        empty@.len() == 0,
    ensures
        match r {
            Ok(entries) => section_pairs(node@, path@) == Ok::<Pairs, FafErrorView>(
                pairs_model(entries@),
            ),
            Err(e) => section_pairs(node@, path@) == Err::<Pairs, FafErrorView>(e@),
        },
{
    match node.untagged() {
        YamlNode::Mapping(entries) => {
            proof {
                YamlNode::lemma_mapping_model(*entries);
            }
            Ok(entries)
        },
        YamlNode::Null => {
            assert(pairs_model(empty@) =~= Pairs::empty());
            Ok(empty)
        },
        _ => Err(mismatch_error(path, "a mapping")),
    }
}

/// Reads a string that has to be there.
fn read_required_text(entries: &Vec<(YamlNode, YamlNode)>, key: &str, path: &str) -> (r: Result<
    String,
    FafError,
>)
    ensures
        outcome(r) == required_text(pairs_model(entries@), key@, path@),
{
    match find(entries, key) {
        None => Err(FafError::MissingField(String::from_str(path))),
        Some(v) => match v.scalar_text() {
            Some(t) => Ok(t),
            None => Err(mismatch_error(path, "a string")),
        },
    }
}

/// Reads a string that may be absent.
fn read_optional_text(entries: &Vec<(YamlNode, YamlNode)>, key: &str, path: &str) -> (r: Result<
    Option<String>,
    FafError,
>)
    ensures
        outcome(r) == optional_text(pairs_model(entries@), key@, path@),
{
    match find(entries, key) {
        None => Ok(None),
        Some(v) => {
            if v.is_null() {
                Ok(None)
            } else {
                match v.scalar_text() {
                    Some(t) => Ok(Some(t)),
                    None => Err(mismatch_error(path, "a string")),
                }
            }
        },
    }
}

/// Reads a list of strings.
fn read_text_list(entries: &Vec<(YamlNode, YamlNode)>, key: &str, path: &str) -> (r: Result<
    Vec<String>,
    FafError,
>)
    ensures
        outcome(r) == text_list(pairs_model(entries@), key@, path@),
{
    let mut out: Vec<String> = Vec::new();
    match find(entries, key) {
        None => {
            assert(out.deep_view() =~= Seq::<Seq<char>>::empty());
            Ok(out)
        },
        Some(v) => match v.untagged() {
            YamlNode::Null => {
                assert(out.deep_view() =~= Seq::<Seq<char>>::empty());
                Ok(out)
            },
            YamlNode::Sequence(items) => {
                proof {
                    YamlNode::lemma_sequence_model(*items);
                }
                let ghost values = nodes_model(items@);
                let mut i: usize = 0;
                while i < items.len()
                    invariant
                        i <= items.len(),
                        values == nodes_model(items@),
                        text_list(pairs_model(entries@), key@, path@) == (if all_scalars(values) {
                            Ok::<Seq<Seq<char>>, FafErrorView>(texts_of(values))
                        } else {
                            Err::<Seq<Seq<char>>, FafErrorView>(
                                mismatch(path@, "a sequence of strings"@),
                            )
                        }),
                        out.len() == i,
                        forall|j: int|
                            0 <= j < i ==> (#[trigger] values[j]).scalar_text() == Some(out@[j]@),
                    decreases items.len() - i,
                {
                    match items[i].scalar_text() {
                        Some(t) => {
                            out.push(t);
                        },
                        None => {
                            assert(values[i as int].scalar_text() is None);
                            return Err(mismatch_error(path, "a sequence of strings"));
                        },
                    }
                    i += 1;
                }
                assert(out.deep_view() =~= texts_of(values));
                Ok(out)
            },
            _ => Err(mismatch_error(path, "a sequence of strings")),
        },
    }
}

/// Reads the mapping of strings that `node` holds.
fn read_string_map(node: &YamlNode, path: &str) -> (r: Result<StringMap, FafError>)
    ensures
        outcome(r) == string_map_of(node@, path@),
{
    match node.untagged() {
        YamlNode::Mapping(entries) => {
            proof {
                YamlNode::lemma_mapping_model(*entries);
            }
            let ghost pairs = pairs_model(entries@);
            let mut out = StringMap::new();
            let mut i: usize = 0;
            assert(text_pairs_of(pairs).take(0) =~= Entries::empty());
            while i < entries.len()
                invariant
                    i <= entries.len(),
                    pairs == pairs_model(entries@),
                    string_map_of(node@, path@) == (if all_scalar_pairs(pairs) {
                        Ok::<Entries, FafErrorView>(gathered(text_pairs_of(pairs)))
                    } else {
                        Err::<Entries, FafErrorView>(mismatch(path@, "a mapping of strings"@))
                    }),
                    forall|j: int|
                        0 <= j < i ==> (#[trigger] pairs[j]).0.scalar_text() is Some
                            && pairs[j].1.scalar_text() is Some,
                    out@ == gathered(text_pairs_of(pairs).take(i as int)),
                decreases entries.len() - i,
            {
                let key = match entries[i].0.scalar_text() {
                    Some(t) => t,
                    None => {
                        assert(pairs[i as int].0.scalar_text() is None);
                        return Err(mismatch_error(path, "a mapping of strings"));
                    },
                };
                let value = match entries[i].1.scalar_text() {
                    Some(t) => t,
                    None => {
                        assert(pairs[i as int].1.scalar_text() is None);
                        return Err(mismatch_error(path, "a mapping of strings"));
                    },
                };
                proof {
                    let raw = text_pairs_of(pairs);
                    assert(raw.take(i + 1).drop_last() =~= raw.take(i as int));
                    assert(raw.take(i + 1).last() == (key@, value@));
                }
                out.insert(key, value);
                i += 1;
            }
            assert(text_pairs_of(pairs).take(i as int) =~= text_pairs_of(pairs));
            Ok(out)
        },
        _ => Err(mismatch_error(path, "a mapping of strings")),
    }
}

/// Reads a mapping of strings.
fn read_text_map(entries: &Vec<(YamlNode, YamlNode)>, key: &str, path: &str) -> (r: Result<
    StringMap,
    FafError,
>)
    ensures
        outcome(r) == text_map(pairs_model(entries@), key@, path@),
{
    match find(entries, key) {
        None => Ok(StringMap::new()),
        Some(v) => {
            if v.is_null() {
                Ok(StringMap::new())
            } else {
                read_string_map(v, path)
            }
        },
    }
}

/// Reads a mapping of strings that may be absent.
fn read_optional_text_map(entries: &Vec<(YamlNode, YamlNode)>, key: &str, path: &str) -> (r:
    Result<Option<StringMap>, FafError>)
    ensures
        outcome(r) == optional_text_map(pairs_model(entries@), key@, path@),
{
    match find(entries, key) {
        None => Ok(None),
        Some(v) => {
            if v.is_null() {
                Ok(None)
            } else {
                match read_string_map(v, path) {
                    Ok(m) => Ok(Some(m)),
                    Err(e) => Err(e),
                }
            }
        },
    }
}

/// Reads a flag.
fn read_flag(entries: &Vec<(YamlNode, YamlNode)>, key: &str, path: &str) -> (r: Result<
    bool,
    FafError,
>)
    ensures
        outcome(r) == flag(pairs_model(entries@), key@, path@),
{
    match find(entries, key) {
        None => Ok(false),
        Some(v) => match v.untagged() {
            YamlNode::Bool(b) => Ok(*b),
            _ => Err(mismatch_error(path, "a boolean")),
        },
    }
}


/// What reading the project section from `v` gives: the fields are read in the
/// order of their declaration, and the first fault among them is the result.
pub open spec fn project_of(v: YamlValue) -> Result<ProjectView, FafErrorView> {
    match section_pairs(v, "project"@) {
        Err(e) => Err(e),
        Ok(pairs) => {
            let name = required_text(pairs, "name"@, "project.name"@);
            let goal = optional_text(pairs, "goal"@, "project.goal"@);
            let main_language = optional_text(pairs, "main_language"@, "project.main_language"@);
            let approach = optional_text(pairs, "approach"@, "project.approach"@);
            let version = optional_text(pairs, "version"@, "project.version"@);
            let license = optional_text(pairs, "license"@, "project.license"@);
            if name is Err {
                Err(name->Err_0)
            } else if goal is Err {
                Err(goal->Err_0)
            } else if main_language is Err {
                Err(main_language->Err_0)
            } else if approach is Err {
                Err(approach->Err_0)
            } else if version is Err {
                Err(version->Err_0)
            } else if license is Err {
                Err(license->Err_0)
            } else {
                Ok(
                    ProjectView {
                        name: name->Ok_0,
                        goal: goal->Ok_0,
                        main_language: main_language->Ok_0,
                        approach: approach->Ok_0,
                        version: version->Ok_0,
                        license: license->Ok_0,
                    },
                )
            }
        },
    }
}

/// Reads the project section from `node`.
pub fn decode_project(node: &YamlNode) -> (r: Result<Project, FafError>)
    ensures
        outcome(r) == project_of(node@),
{
    let empty: Vec<(YamlNode, YamlNode)> = Vec::new();
    let entries = section_entries(node, &empty, "project")?;
    let name = read_required_text(entries, "name", "project.name")?;
    let goal = read_optional_text(entries, "goal", "project.goal")?;
    let main_language = read_optional_text(entries, "main_language", "project.main_language")?;
    let approach = read_optional_text(entries, "approach", "project.approach")?;
    let version = read_optional_text(entries, "version", "project.version")?;
    let license = read_optional_text(entries, "license", "project.license")?;
    Ok(Project { name, goal, main_language, approach, version, license })
}

/// What reading the instant context from `v` gives: the fields are read in the
/// order of their declaration, and the first fault among them is the result.
pub open spec fn instant_context_of(v: YamlValue) -> Result<InstantContextView, FafErrorView> {
    match section_pairs(v, "instant_context"@) {
        Err(e) => Err(e),
        Ok(pairs) => {
            let what_building = optional_text(
                pairs,
                "what_building"@,
                "instant_context.what_building"@,
            );
            let tech_stack = optional_text(pairs, "tech_stack"@, "instant_context.tech_stack"@);
            let deployment = optional_text(pairs, "deployment"@, "instant_context.deployment"@);
            let key_files = text_list(pairs, "key_files"@, "instant_context.key_files"@);
            let commands = text_map(pairs, "commands"@, "instant_context.commands"@);
            if what_building is Err {
                Err(what_building->Err_0)
            } else if tech_stack is Err {
                Err(tech_stack->Err_0)
            } else if deployment is Err {
                Err(deployment->Err_0)
            } else if key_files is Err {
                Err(key_files->Err_0)
            } else if commands is Err {
                Err(commands->Err_0)
            } else {
                Ok(
                    InstantContextView {
                        what_building: what_building->Ok_0,
                        tech_stack: tech_stack->Ok_0,
                        deployment: deployment->Ok_0,
                        key_files: key_files->Ok_0,
                        commands: commands->Ok_0,
                    },
                )
            }
        },
    }
}

/// Reads the instant context from `node`.
pub fn decode_instant_context(node: &YamlNode) -> (r: Result<InstantContext, FafError>)
    ensures
        outcome(r) == instant_context_of(node@),
{
    let empty: Vec<(YamlNode, YamlNode)> = Vec::new();
    let entries = section_entries(node, &empty, "instant_context")?;
    let what_building = read_optional_text(
        entries,
        "what_building",
        "instant_context.what_building",
    )?;
    let tech_stack = read_optional_text(entries, "tech_stack", "instant_context.tech_stack")?;
    let deployment = read_optional_text(entries, "deployment", "instant_context.deployment")?;
    let key_files = read_text_list(entries, "key_files", "instant_context.key_files")?;
    let commands = read_text_map(entries, "commands", "instant_context.commands")?;
    Ok(InstantContext { what_building, tech_stack, deployment, key_files, commands })
}

/// What reading the stack section from `v` gives: the fields are read in the
/// order of their declaration, and the first fault among them is the result.
pub open spec fn stack_of(v: YamlValue) -> Result<StackView, FafErrorView> {
    match section_pairs(v, "stack"@) {
        Err(e) => Err(e),
        Ok(pairs) => {
            let frontend = optional_text(pairs, "frontend"@, "stack.frontend"@);
            let backend = optional_text(pairs, "backend"@, "stack.backend"@);
            let database = optional_text(pairs, "database"@, "stack.database"@);
            let infrastructure = optional_text(pairs, "infrastructure"@, "stack.infrastructure"@);
            let build_tool = optional_text(pairs, "build_tool"@, "stack.build_tool"@);
            let testing = optional_text(pairs, "testing"@, "stack.testing"@);
            let cicd = optional_text(pairs, "cicd"@, "stack.cicd"@);
            if frontend is Err {
                Err(frontend->Err_0)
            } else if backend is Err {
                Err(backend->Err_0)
            } else if database is Err {
                Err(database->Err_0)
            } else if infrastructure is Err {
                Err(infrastructure->Err_0)
            } else if build_tool is Err {
                Err(build_tool->Err_0)
            } else if testing is Err {
                Err(testing->Err_0)
            } else if cicd is Err {
                Err(cicd->Err_0)
            } else {
                Ok(
                    StackView {
                        frontend: frontend->Ok_0,
                        backend: backend->Ok_0,
                        database: database->Ok_0,
                        infrastructure: infrastructure->Ok_0,
                        build_tool: build_tool->Ok_0,
                        testing: testing->Ok_0,
                        cicd: cicd->Ok_0,
                    },
                )
            }
        },
    }
}

/// Reads the stack section from `node`.
pub fn decode_stack(node: &YamlNode) -> (r: Result<Stack, FafError>)
    ensures
        outcome(r) == stack_of(node@),
{
    let empty: Vec<(YamlNode, YamlNode)> = Vec::new();
    let entries = section_entries(node, &empty, "stack")?;
    let frontend = read_optional_text(entries, "frontend", "stack.frontend")?;
    let backend = read_optional_text(entries, "backend", "stack.backend")?;
    let database = read_optional_text(entries, "database", "stack.database")?;
    let infrastructure = read_optional_text(entries, "infrastructure", "stack.infrastructure")?;
    let build_tool = read_optional_text(entries, "build_tool", "stack.build_tool")?;
    let testing = read_optional_text(entries, "testing", "stack.testing")?;
    let cicd = read_optional_text(entries, "cicd", "stack.cicd")?;
    Ok(Stack { frontend, backend, database, infrastructure, build_tool, testing, cicd })
}

/// What reading the context quality section from `v` gives: the fields are read in the
/// order of their declaration, and the first fault among them is the result.
pub open spec fn context_quality_of(v: YamlValue) -> Result<ContextQualityView, FafErrorView> {
    match section_pairs(v, "context_quality"@) {
        Err(e) => Err(e),
        Ok(pairs) => {
            let slots_filled = optional_text(
                pairs,
                "slots_filled"@,
                "context_quality.slots_filled"@,
            );
            let confidence = optional_text(pairs, "confidence"@, "context_quality.confidence"@);
            let handoff_ready = flag(pairs, "handoff_ready"@, "context_quality.handoff_ready"@);
            let missing_context = text_list(
                pairs,
                "missing_context"@,
                "context_quality.missing_context"@,
            );
            if slots_filled is Err {
                Err(slots_filled->Err_0)
            } else if confidence is Err {
                Err(confidence->Err_0)
            } else if handoff_ready is Err {
                Err(handoff_ready->Err_0)
            } else if missing_context is Err {
                Err(missing_context->Err_0)
            } else {
                Ok(
                    ContextQualityView {
                        slots_filled: slots_filled->Ok_0,
                        confidence: confidence->Ok_0,
                        handoff_ready: handoff_ready->Ok_0,
                        missing_context: missing_context->Ok_0,
                    },
                )
            }
        },
    }
}

/// Reads the context quality section from `node`.
pub fn decode_context_quality(node: &YamlNode) -> (r: Result<ContextQuality, FafError>)
    ensures
        outcome(r) == context_quality_of(node@),
{
    let empty: Vec<(YamlNode, YamlNode)> = Vec::new();
    let entries = section_entries(node, &empty, "context_quality")?;
    let slots_filled = read_optional_text(entries, "slots_filled", "context_quality.slots_filled")?;
    let confidence = read_optional_text(entries, "confidence", "context_quality.confidence")?;
    let handoff_ready = read_flag(entries, "handoff_ready", "context_quality.handoff_ready")?;
    let missing_context = read_text_list(
        entries,
        "missing_context",
        "context_quality.missing_context",
    )?;
    Ok(ContextQuality { slots_filled, confidence, handoff_ready, missing_context })
}

/// What reading the human context from `v` gives: the fields are read in the
/// order of their declaration, and the first fault among them is the result.
pub open spec fn human_context_of(v: YamlValue) -> Result<HumanContextView, FafErrorView> {
    match section_pairs(v, "human_context"@) {
        Err(e) => Err(e),
        Ok(pairs) => {
            let who = optional_text(pairs, "who"@, "human_context.who"@);
            let what = optional_text(pairs, "what"@, "human_context.what"@);
            let why_field = optional_text(pairs, "why"@, "human_context.why"@);
            let how = optional_text(pairs, "how"@, "human_context.how"@);
            let where_field = optional_text(pairs, "where"@, "human_context.where"@);
            let when = optional_text(pairs, "when"@, "human_context.when"@);
            if who is Err {
                Err(who->Err_0)
            } else if what is Err {
                Err(what->Err_0)
            } else if why_field is Err {
                Err(why_field->Err_0)
            } else if how is Err {
                Err(how->Err_0)
            } else if where_field is Err {
                Err(where_field->Err_0)
            } else if when is Err {
                Err(when->Err_0)
            } else {
                Ok(
                    HumanContextView {
                        who: who->Ok_0,
                        what: what->Ok_0,
                        why_field: why_field->Ok_0,
                        how: how->Ok_0,
                        where_field: where_field->Ok_0,
                        when: when->Ok_0,
                    },
                )
            }
        },
    }
}

/// Reads the human context from `node`.
pub fn decode_human_context(node: &YamlNode) -> (r: Result<HumanContext, FafError>)
    ensures
        outcome(r) == human_context_of(node@),
{
    let empty: Vec<(YamlNode, YamlNode)> = Vec::new();
    let entries = section_entries(node, &empty, "human_context")?;
    let who = read_optional_text(entries, "who", "human_context.who")?;
    let what = read_optional_text(entries, "what", "human_context.what")?;
    let why_field = read_optional_text(entries, "why", "human_context.why")?;
    let how = read_optional_text(entries, "how", "human_context.how")?;
    let where_field = read_optional_text(entries, "where", "human_context.where")?;
    let when = read_optional_text(entries, "when", "human_context.when")?;
    Ok(HumanContext { who, what, why_field, how, where_field, when })
}

/// What reading the preferences section from `v` gives: the fields are read in the
/// order of their declaration, and the first fault among them is the result.
pub open spec fn preferences_of(v: YamlValue) -> Result<PreferencesView, FafErrorView> {
    match section_pairs(v, "preferences"@) {
        Err(e) => Err(e),
        Ok(pairs) => {
            let quality_bar = optional_text(pairs, "quality_bar"@, "preferences.quality_bar"@);
            let testing = optional_text(pairs, "testing"@, "preferences.testing"@);
            let documentation = optional_text(
                pairs,
                "documentation"@,
                "preferences.documentation"@,
            );
            let code_style = optional_text(pairs, "code_style"@, "preferences.code_style"@);
            if quality_bar is Err {
                Err(quality_bar->Err_0)
            } else if testing is Err {
                Err(testing->Err_0)
            } else if documentation is Err {
                Err(documentation->Err_0)
            } else if code_style is Err {
                Err(code_style->Err_0)
            } else {
                Ok(
                    PreferencesView {
                        quality_bar: quality_bar->Ok_0,
                        testing: testing->Ok_0,
                        documentation: documentation->Ok_0,
                        code_style: code_style->Ok_0,
                    },
                )
            }
        },
    }
}

/// Reads the preferences section from `node`.
pub fn decode_preferences(node: &YamlNode) -> (r: Result<Preferences, FafError>)
    ensures
        outcome(r) == preferences_of(node@),
{
    let empty: Vec<(YamlNode, YamlNode)> = Vec::new();
    let entries = section_entries(node, &empty, "preferences")?;
    let quality_bar = read_optional_text(entries, "quality_bar", "preferences.quality_bar")?;
    let testing = read_optional_text(entries, "testing", "preferences.testing")?;
    let documentation = read_optional_text(entries, "documentation", "preferences.documentation")?;
    let code_style = read_optional_text(entries, "code_style", "preferences.code_style")?;
    Ok(Preferences { quality_bar, testing, documentation, code_style })
}

/// What reading the state section from `v` gives: the fields are read in the
/// order of their declaration, and the first fault among them is the result.
pub open spec fn state_of(v: YamlValue) -> Result<StateView, FafErrorView> {
    match section_pairs(v, "state"@) {
        Err(e) => Err(e),
        Ok(pairs) => {
            let phase = optional_text(pairs, "phase"@, "state.phase"@);
            let version = optional_text(pairs, "version"@, "state.version"@);
            let focus = optional_text(pairs, "focus"@, "state.focus"@);
            let milestones = text_list(pairs, "milestones"@, "state.milestones"@);
            if phase is Err {
                Err(phase->Err_0)
            } else if version is Err {
                Err(version->Err_0)
            } else if focus is Err {
                Err(focus->Err_0)
            } else if milestones is Err {
                Err(milestones->Err_0)
            } else {
                Ok(
                    StateView {
                        phase: phase->Ok_0,
                        version: version->Ok_0,
                        focus: focus->Ok_0,
                        milestones: milestones->Ok_0,
                    },
                )
            }
        },
    }
}

/// Reads the state section from `node`.
pub fn decode_state(node: &YamlNode) -> (r: Result<State, FafError>)
    ensures
        outcome(r) == state_of(node@),
{
    let empty: Vec<(YamlNode, YamlNode)> = Vec::new();
    let entries = section_entries(node, &empty, "state")?;
    let phase = read_optional_text(entries, "phase", "state.phase")?;
    let version = read_optional_text(entries, "version", "state.version")?;
    let focus = read_optional_text(entries, "focus", "state.focus")?;
    let milestones = read_text_list(entries, "milestones", "state.milestones")?;
    Ok(State { phase, version, focus, milestones })
}

/// What reading a document from `v` gives: the fields are read in the
/// order of their declaration, and the first fault among them is the result.
pub open spec fn document_of(v: YamlValue) -> Result<FafDataView, FafErrorView> {
    match section_pairs(v, "document"@) {
        Err(e) => Err(e),
        Ok(pairs) => {
            let faf_version = required_text(pairs, "faf_version"@, "faf_version"@);
            let project = required_section(
                pairs,
                "project"@,
                "project"@,
                |x: YamlValue| project_of(x),
            );
            let ai_score = optional_text(pairs, "ai_score"@, "ai_score"@);
            let ai_confidence = optional_text(pairs, "ai_confidence"@, "ai_confidence"@);
            let ai_tldr = optional_text_map(pairs, "ai_tldr"@, "ai_tldr"@);
            let instant_context = optional_section(
                pairs,
                "instant_context"@,
                |x: YamlValue| instant_context_of(x),
            );
            let context_quality = optional_section(
                pairs,
                "context_quality"@,
                |x: YamlValue| context_quality_of(x),
            );
            let stack = optional_section(pairs, "stack"@, |x: YamlValue| stack_of(x));
            let human_context = optional_section(
                pairs,
                "human_context"@,
                |x: YamlValue| human_context_of(x),
            );
            let preferences = optional_section(
                pairs,
                "preferences"@,
                |x: YamlValue| preferences_of(x),
            );
            let state = optional_section(pairs, "state"@, |x: YamlValue| state_of(x));
            let tags = text_list(pairs, "tags"@, "tags"@);
            if faf_version is Err {
                Err(faf_version->Err_0)
            } else if project is Err {
                Err(project->Err_0)
            } else if ai_score is Err {
                Err(ai_score->Err_0)
            } else if ai_confidence is Err {
                Err(ai_confidence->Err_0)
            } else if ai_tldr is Err {
                Err(ai_tldr->Err_0)
            } else if instant_context is Err {
                Err(instant_context->Err_0)
            } else if context_quality is Err {
                Err(context_quality->Err_0)
            } else if stack is Err {
                Err(stack->Err_0)
            } else if human_context is Err {
                Err(human_context->Err_0)
            } else if preferences is Err {
                Err(preferences->Err_0)
            } else if state is Err {
                Err(state->Err_0)
            } else if tags is Err {
                Err(tags->Err_0)
            } else {
                Ok(
                    FafDataView {
                        faf_version: faf_version->Ok_0,
                        project: project->Ok_0,
                        ai_score: ai_score->Ok_0,
                        ai_confidence: ai_confidence->Ok_0,
                        ai_tldr: ai_tldr->Ok_0,
                        instant_context: instant_context->Ok_0,
                        context_quality: context_quality->Ok_0,
                        stack: stack->Ok_0,
                        human_context: human_context->Ok_0,
                        preferences: preferences->Ok_0,
                        state: state->Ok_0,
                        tags: tags->Ok_0,
                    },
                )
            }
        },
    }
}

/// Reads a document from `node`.
pub fn decode_document(node: &YamlNode) -> (r: Result<FafData, FafError>)
    ensures
        outcome(r) == document_of(node@),
{
    let empty: Vec<(YamlNode, YamlNode)> = Vec::new();
    let entries = section_entries(node, &empty, "document")?;
    let faf_version = read_required_text(entries, "faf_version", "faf_version")?;
    let project = match find(entries, "project") {
        None => {
            return Err(FafError::MissingField(String::from_str("project")));
        },
        Some(v) => decode_project(v)?,
    };
    let ai_score = read_optional_text(entries, "ai_score", "ai_score")?;
    let ai_confidence = read_optional_text(entries, "ai_confidence", "ai_confidence")?;
    let ai_tldr = read_optional_text_map(entries, "ai_tldr", "ai_tldr")?;
    let instant_context = match find(entries, "instant_context") {
        None => None,
        Some(v) => {
            if v.is_null() {
                None
            } else {
                Some(decode_instant_context(v)?)
            }
        },
    };
    let context_quality = match find(entries, "context_quality") {
        None => None,
        Some(v) => {
            if v.is_null() {
                None
            } else {
                Some(decode_context_quality(v)?)
            }
        },
    };
    let stack = match find(entries, "stack") {
        None => None,
        Some(v) => {
            if v.is_null() {
                None
            } else {
                Some(decode_stack(v)?)
            }
        },
    };
    let human_context = match find(entries, "human_context") {
        None => None,
        Some(v) => {
            if v.is_null() {
                None
            } else {
                Some(decode_human_context(v)?)
            }
        },
    };
    let preferences = match find(entries, "preferences") {
        None => None,
        Some(v) => {
            if v.is_null() {
                None
            } else {
                Some(decode_preferences(v)?)
            }
        },
    };
    let state = match find(entries, "state") {
        None => None,
        Some(v) => {
            if v.is_null() {
                None
            } else {
                Some(decode_state(v)?)
            }
        },
    };
    let tags = read_text_list(entries, "tags", "tags")?;
    Ok(
        FafData {
            faf_version,
            project,
            ai_score,
            ai_confidence,
            ai_tldr,
            instant_context,
            context_quality,
            stack,
            human_context,
            preferences,
            state,
            tags,
        },
    )
}

/// A mapping of strings that was read holds no key twice.
pub proof fn lemma_string_map_of_distinct(v: YamlValue, path: Seq<char>)
    ensures
        string_map_of(v, path) matches Ok(entries) ==> distinct_keys(entries),
{
    if let YamlValue::Mapping(pairs) = v.untagged() {
        lemma_gathered_distinct(text_pairs_of(pairs));
    }
}

/// A document that was read holds no key twice in any of its mappings.
pub proof fn lemma_document_of_wf(v: YamlValue)
    ensures
        document_of(v) matches Ok(d) ==> d.wf(),
{
    if let Ok(pairs) = section_pairs(v, "document"@) {
        if let Some(x) = lookup(pairs, "ai_tldr"@) {
            lemma_string_map_of_distinct(x, "ai_tldr"@);
        }
        if let Some(x) = lookup(pairs, "instant_context"@) {
            if let Ok(inner) = section_pairs(x, "instant_context"@) {
                if let Some(y) = lookup(inner, "commands"@) {
                    lemma_string_map_of_distinct(y, "instant_context.commands"@);
                }
            }
        }
    }
}

/// An instant context whose `key_files` is neither a sequence nor null, a
/// string among others, is refused.
pub proof fn lemma_scalar_key_files_is_refused(v: YamlValue, pairs: Pairs, x: YamlValue)
    requires
        section_pairs(v, "instant_context"@) == Ok::<Pairs, FafErrorView>(pairs),
        lookup(pairs, "key_files"@) == Some(x),
        !(x.untagged() is Sequence),
        !(x.untagged() is Null),
    ensures
        instant_context_of(v) is Err,
{
}

/// A document whose `tags` is neither a sequence nor null, a string among
/// others, is refused.
pub proof fn lemma_scalar_tags_is_refused(v: YamlValue, pairs: Pairs, x: YamlValue)
    requires
        section_pairs(v, "document"@) == Ok::<Pairs, FafErrorView>(pairs),
        lookup(pairs, "tags"@) == Some(x),
        !(x.untagged() is Sequence),
        !(x.untagged() is Null),
    ensures
        document_of(v) is Err,
{
}

/// A document without a `faf_version`, without a `project` or without a name
/// in its project is refused, whatever else it holds.
pub proof fn lemma_required_fields(v: YamlValue, pairs: Pairs)
    requires
        section_pairs(v, "document"@) == Ok::<Pairs, FafErrorView>(pairs),
    ensures
        lookup(pairs, "faf_version"@) is None ==> document_of(v) == Err::<
            FafDataView,
            FafErrorView,
        >(FafErrorView::MissingField("faf_version"@)),
        lookup(pairs, "project"@) is None ==> document_of(v) is Err,
        (lookup(pairs, "project"@) matches Some(p) && section_pairs(p, "project"@) matches Ok(inner)
            && lookup(inner, "name"@) is None) ==> document_of(v) is Err,
{
}


} // verus!
