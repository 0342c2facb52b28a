//! Writing a document and reading it back: what is written is emittable, and
//! reading it gives the document again.

use vstd::prelude::*;
use crate::decode::{
    all_scalars, context_quality_of, document_of, flag, human_context_of, instant_context_of,
    optional_section, optional_text, optional_text_map, preferences_of, project_of,
    required_section, required_text,
    section_pairs, stack_of, state_of, string_map_of, text_list, text_map, text_pairs_of,
    texts_of,
};
use crate::encode::{
    context_quality_fields, context_quality_value, document_fields, document_value,
    entries_value, human_context_fields, human_context_value, instant_context_fields,
    instant_context_value, list_field, map_field, optional_map_field, preferences_fields,
    preferences_value, project_fields, project_value, section_field, stack_fields, stack_value,
    state_fields, state_value, text_field, texts_value,
};
use crate::parser::FafErrorView;
use crate::string_map::{distinct_keys, lemma_gathered_identity, Entries};
use crate::types::{
    ContextQualityView, FafDataView, HumanContextView, InstantContextView, PreferencesView,
    ProjectView, StackView, StateView,
};
use crate::yaml::{
    emittable_pairs, lemma_lookup_empty, lemma_lookup_with_field, lemma_with_field_emittable,
    lookup, with_field, Pairs, YamlValue,
};

verus! {

/// A list of strings, written as a sequence, holds scalars alone, and their
/// texts are the list.
pub proof fn lemma_texts_read_back(items: Seq<Seq<char>>)
    ensures
        all_scalars(texts_value(items)->Sequence_0),
        texts_of(texts_value(items)->Sequence_0) == items,
        texts_value(items).emittable(),
{
    let written = texts_value(items)->Sequence_0;
    assert forall|i: int| 0 <= i < written.len() implies (#[trigger] written[i]).scalar_text()
        == Some(items[i]) by {
        assert(written[i] == YamlValue::Text(items[i]));
    }
    assert(texts_of(written) =~= items);
    assert forall|i: int| 0 <= i < written.len() implies (#[trigger] written[i]).emittable() by {
        assert(written[i] == YamlValue::Text(items[i]));
    }
}

/// A mapping of strings without a key twice, written as a mapping, reads
/// back as itself.
pub proof fn lemma_entries_read_back(entries: Entries, path: Seq<char>)
    requires
        distinct_keys(entries),
    ensures
        string_map_of(entries_value(entries), path) == Ok::<Entries, FafErrorView>(entries),
        entries_value(entries).emittable(),
{
    let written = entries_value(entries)->Mapping_0;
    assert forall|i: int| 0 <= i < written.len() implies (#[trigger] written[i]).0.scalar_text()
        == Some(entries[i].0) && written[i].1.scalar_text() == Some(entries[i].1) by {
        assert(written[i] == (YamlValue::Text(entries[i].0), YamlValue::Text(entries[i].1)));
    }
    assert(text_pairs_of(written) =~= entries);
    lemma_gathered_identity(entries);
    assert forall|i: int| 0 <= i < written.len() implies (#[trigger] written[i]).0 is Text
        && written[i].1.emittable() by {
        assert(written[i] == (YamlValue::Text(entries[i].0), YamlValue::Text(entries[i].1)));
    }
    assert forall|i: int, j: int| 0 <= i < j < written.len() implies (#[trigger] written[i]).0 != (
    #[trigger] written[j]).0 by {
        assert(written[i] == (YamlValue::Text(entries[i].0), YamlValue::Text(entries[i].1)));
        assert(written[j] == (YamlValue::Text(entries[j].0), YamlValue::Text(entries[j].1)));
    }
}


/// How the keys of the project section are spelled: the length of each
/// and its first characters, which tell any two of them apart.
proof fn lemma_project_keys()
    ensures
        "name"@.len() == 4,
        "name"@[0] == 'n',
        "name"@[1] == 'a',
        "name"@[2] == 'm',
        "name"@[3] == 'e',
        "goal"@.len() == 4,
        "goal"@[0] == 'g',
        "goal"@[1] == 'o',
        "goal"@[2] == 'a',
        "goal"@[3] == 'l',
        "main_language"@.len() == 13,
        "main_language"@[0] == 'm',
        "main_language"@[1] == 'a',
        "main_language"@[2] == 'i',
        "main_language"@[3] == 'n',
        "approach"@.len() == 8,
        "approach"@[0] == 'a',
        "approach"@[1] == 'p',
        "approach"@[2] == 'p',
        "approach"@[3] == 'r',
        "version"@.len() == 7,
        "version"@[0] == 'v',
        "version"@[1] == 'e',
        "version"@[2] == 'r',
        "version"@[3] == 's',
        "license"@.len() == 7,
        "license"@[0] == 'l',
        "license"@[1] == 'i',
        "license"@[2] == 'c',
        "license"@[3] == 'e',
{
    reveal_strlit("name");
    reveal_strlit("goal");
    reveal_strlit("main_language");
    reveal_strlit("approach");
    reveal_strlit("version");
    reveal_strlit("license");
}

/// Under each key of the project section stands the field that was written
/// under it.
proof fn lemma_project_lookups(s: ProjectView)
    ensures
        lookup(project_fields(s), "name"@) == Some(YamlValue::Text(s.name)),
        lookup(project_fields(s), "goal"@) == text_field(s.goal),
        lookup(project_fields(s), "main_language"@) == text_field(s.main_language),
        lookup(project_fields(s), "approach"@) == text_field(s.approach),
        lookup(project_fields(s), "version"@) == text_field(s.version),
        lookup(project_fields(s), "license"@) == text_field(s.license),
{
    broadcast use {lemma_lookup_with_field, lemma_lookup_empty};
    lemma_project_keys();
}

/// The project section, written as a mapping, is emittable.
pub proof fn lemma_project_emittable(s: ProjectView)
    ensures
        project_value(s).emittable(),
{
    broadcast use {lemma_lookup_with_field, lemma_lookup_empty};
    lemma_project_keys();
    let f0 = Pairs::empty();
    let v1 = Some(YamlValue::Text(s.name));
    let f1 = with_field(f0, "name"@, v1);
    let v2 = text_field(s.goal);
    let f2 = with_field(f1, "goal"@, v2);
    let v3 = text_field(s.main_language);
    let f3 = with_field(f2, "main_language"@, v3);
    let v4 = text_field(s.approach);
    let f4 = with_field(f3, "approach"@, v4);
    let v5 = text_field(s.version);
    let f5 = with_field(f4, "version"@, v5);
    let v6 = text_field(s.license);
    let f6 = with_field(f5, "license"@, v6);
    assert(emittable_pairs(f0));
    lemma_with_field_emittable(f0, "name"@, v1);
    lemma_with_field_emittable(f1, "goal"@, v2);
    lemma_with_field_emittable(f2, "main_language"@, v3);
    lemma_with_field_emittable(f3, "approach"@, v4);
    lemma_with_field_emittable(f4, "version"@, v5);
    lemma_with_field_emittable(f5, "license"@, v6);
    assert(project_fields(s) == f6);
}

/// Reading the project section that was written gives it back.
pub proof fn lemma_project_round_trip(s: ProjectView)
    ensures
        project_of(project_value(s)) == Ok::<ProjectView, FafErrorView>(s),
{
    lemma_project_lookups(s);
    let pairs = project_fields(s);
    assert(section_pairs(project_value(s), "project"@)
        == Ok::<Pairs, FafErrorView>(pairs));
    assert(required_text(pairs, "name"@, "project.name"@)
        == Ok::<Seq<char>, FafErrorView>(s.name));
    assert(optional_text(pairs, "goal"@, "project.goal"@)
        == Ok::<Option<Seq<char>>, FafErrorView>(s.goal));
    assert(optional_text(pairs, "main_language"@, "project.main_language"@)
        == Ok::<Option<Seq<char>>, FafErrorView>(s.main_language));
    assert(optional_text(pairs, "approach"@, "project.approach"@)
        == Ok::<Option<Seq<char>>, FafErrorView>(s.approach));
    assert(optional_text(pairs, "version"@, "project.version"@)
        == Ok::<Option<Seq<char>>, FafErrorView>(s.version));
    assert(optional_text(pairs, "license"@, "project.license"@)
        == Ok::<Option<Seq<char>>, FafErrorView>(s.license));
}

/// How the keys of the instant context are spelled: the length of each
/// and its first characters, which tell any two of them apart.
proof fn lemma_instant_context_keys()
    ensures
        "what_building"@.len() == 13,
        "what_building"@[0] == 'w',
        "what_building"@[1] == 'h',
        "what_building"@[2] == 'a',
        "what_building"@[3] == 't',
        "tech_stack"@.len() == 10,
        "tech_stack"@[0] == 't',
        "tech_stack"@[1] == 'e',
        "tech_stack"@[2] == 'c',
        "tech_stack"@[3] == 'h',
        "deployment"@.len() == 10,
        "deployment"@[0] == 'd',
        "deployment"@[1] == 'e',
        "deployment"@[2] == 'p',
        "deployment"@[3] == 'l',
        "key_files"@.len() == 9,
        "key_files"@[0] == 'k',
        "key_files"@[1] == 'e',
        "key_files"@[2] == 'y',
        "key_files"@[3] == '_',
        "commands"@.len() == 8,
        "commands"@[0] == 'c',
        "commands"@[1] == 'o',
        "commands"@[2] == 'm',
        "commands"@[3] == 'm',
{
    reveal_strlit("what_building");
    reveal_strlit("tech_stack");
    reveal_strlit("deployment");
    reveal_strlit("key_files");
    reveal_strlit("commands");
}

/// Under each key of the instant context stands the field that was written
/// under it.
proof fn lemma_instant_context_lookups(s: InstantContextView)
    ensures
        lookup(instant_context_fields(s), "what_building"@) == text_field(s.what_building),
        lookup(instant_context_fields(s), "tech_stack"@) == text_field(s.tech_stack),
        lookup(instant_context_fields(s), "deployment"@) == text_field(s.deployment),
        lookup(instant_context_fields(s), "key_files"@) == list_field(s.key_files),
        lookup(instant_context_fields(s), "commands"@) == map_field(s.commands),
{
    broadcast use {lemma_lookup_with_field, lemma_lookup_empty};
    lemma_instant_context_keys();
}

/// The instant context, written as a mapping, is emittable.
pub proof fn lemma_instant_context_emittable(s: InstantContextView)
    requires
        s.wf(),
    ensures
        instant_context_value(s).emittable(),
{
    broadcast use {lemma_lookup_with_field, lemma_lookup_empty};
    lemma_instant_context_keys();
    let f0 = Pairs::empty();
    let v1 = text_field(s.what_building);
    let f1 = with_field(f0, "what_building"@, v1);
    let v2 = text_field(s.tech_stack);
    let f2 = with_field(f1, "tech_stack"@, v2);
    let v3 = text_field(s.deployment);
    let f3 = with_field(f2, "deployment"@, v3);
    let v4 = list_field(s.key_files);
    let f4 = with_field(f3, "key_files"@, v4);
    let v5 = map_field(s.commands);
    let f5 = with_field(f4, "commands"@, v5);
    assert(emittable_pairs(f0));
    lemma_with_field_emittable(f0, "what_building"@, v1);
    lemma_with_field_emittable(f1, "tech_stack"@, v2);
    lemma_with_field_emittable(f2, "deployment"@, v3);
    lemma_texts_read_back(s.key_files);
    lemma_with_field_emittable(f3, "key_files"@, v4);
    lemma_entries_read_back(s.commands, Seq::empty());
    lemma_with_field_emittable(f4, "commands"@, v5);
    assert(instant_context_fields(s) == f5);
}

/// Reading the instant context that was written gives it back.
pub proof fn lemma_instant_context_round_trip(s: InstantContextView)
    requires
        s.wf(),
    ensures
        instant_context_of(instant_context_value(s)) == Ok::<InstantContextView, FafErrorView>(s),
{
    lemma_instant_context_lookups(s);
    let pairs = instant_context_fields(s);
    assert(section_pairs(instant_context_value(s), "instant_context"@)
        == Ok::<Pairs, FafErrorView>(pairs));
    assert(optional_text(pairs, "what_building"@, "instant_context.what_building"@)
        == Ok::<Option<Seq<char>>, FafErrorView>(s.what_building));
    assert(optional_text(pairs, "tech_stack"@, "instant_context.tech_stack"@)
        == Ok::<Option<Seq<char>>, FafErrorView>(s.tech_stack));
    assert(optional_text(pairs, "deployment"@, "instant_context.deployment"@)
        == Ok::<Option<Seq<char>>, FafErrorView>(s.deployment));
    assert(text_list(pairs, "key_files"@, "instant_context.key_files"@)
        == Ok::<Seq<Seq<char>>, FafErrorView>(s.key_files)) by {
        lemma_texts_read_back(s.key_files);
        if s.key_files.len() == 0 {
            assert(s.key_files =~= Seq::<Seq<char>>::empty());
        }
    }
    assert(text_map(pairs, "commands"@, "instant_context.commands"@)
        == Ok::<Entries, FafErrorView>(s.commands)) by {
        lemma_entries_read_back(s.commands, "instant_context.commands"@);
        if s.commands.len() == 0 {
            assert(s.commands =~= Entries::empty());
        }
    }
}

/// How the keys of the stack section are spelled: the length of each
/// and its first characters, which tell any two of them apart.
proof fn lemma_stack_keys()
    ensures
        "frontend"@.len() == 8,
        "frontend"@[0] == 'f',
        "frontend"@[1] == 'r',
        "frontend"@[2] == 'o',
        "frontend"@[3] == 'n',
        "backend"@.len() == 7,
        "backend"@[0] == 'b',
        "backend"@[1] == 'a',
        "backend"@[2] == 'c',
        "backend"@[3] == 'k',
        "database"@.len() == 8,
        "database"@[0] == 'd',
        "database"@[1] == 'a',
        "database"@[2] == 't',
        "database"@[3] == 'a',
        "infrastructure"@.len() == 14,
        "infrastructure"@[0] == 'i',
        "infrastructure"@[1] == 'n',
        "infrastructure"@[2] == 'f',
        "infrastructure"@[3] == 'r',
        "build_tool"@.len() == 10,
        "build_tool"@[0] == 'b',
        "build_tool"@[1] == 'u',
        "build_tool"@[2] == 'i',
        "build_tool"@[3] == 'l',
        "testing"@.len() == 7,
        "testing"@[0] == 't',
        "testing"@[1] == 'e',
        "testing"@[2] == 's',
        "testing"@[3] == 't',
        "cicd"@.len() == 4,
        "cicd"@[0] == 'c',
        "cicd"@[1] == 'i',
        "cicd"@[2] == 'c',
        "cicd"@[3] == 'd',
{
    reveal_strlit("frontend");
    reveal_strlit("backend");
    reveal_strlit("database");
    reveal_strlit("infrastructure");
    reveal_strlit("build_tool");
    reveal_strlit("testing");
    reveal_strlit("cicd");
}

/// Under each key of the stack section stands the field that was written
/// under it.
proof fn lemma_stack_lookups(s: StackView)
    ensures
        lookup(stack_fields(s), "frontend"@) == text_field(s.frontend),
        lookup(stack_fields(s), "backend"@) == text_field(s.backend),
        lookup(stack_fields(s), "database"@) == text_field(s.database),
        lookup(stack_fields(s), "infrastructure"@) == text_field(s.infrastructure),
        lookup(stack_fields(s), "build_tool"@) == text_field(s.build_tool),
        lookup(stack_fields(s), "testing"@) == text_field(s.testing),
        lookup(stack_fields(s), "cicd"@) == text_field(s.cicd),
{
    broadcast use {lemma_lookup_with_field, lemma_lookup_empty};
    lemma_stack_keys();
}

/// The stack section, written as a mapping, is emittable.
pub proof fn lemma_stack_emittable(s: StackView)
    ensures
        stack_value(s).emittable(),
{
    broadcast use {lemma_lookup_with_field, lemma_lookup_empty};
    lemma_stack_keys();
    let f0 = Pairs::empty();
    let v1 = text_field(s.frontend);
    let f1 = with_field(f0, "frontend"@, v1);
    let v2 = text_field(s.backend);
    let f2 = with_field(f1, "backend"@, v2);
    let v3 = text_field(s.database);
    let f3 = with_field(f2, "database"@, v3);
    let v4 = text_field(s.infrastructure);
    let f4 = with_field(f3, "infrastructure"@, v4);
    let v5 = text_field(s.build_tool);
    let f5 = with_field(f4, "build_tool"@, v5);
    let v6 = text_field(s.testing);
    let f6 = with_field(f5, "testing"@, v6);
    let v7 = text_field(s.cicd);
    let f7 = with_field(f6, "cicd"@, v7);
    assert(emittable_pairs(f0));
    lemma_with_field_emittable(f0, "frontend"@, v1);
    lemma_with_field_emittable(f1, "backend"@, v2);
    lemma_with_field_emittable(f2, "database"@, v3);
    lemma_with_field_emittable(f3, "infrastructure"@, v4);
    lemma_with_field_emittable(f4, "build_tool"@, v5);
    lemma_with_field_emittable(f5, "testing"@, v6);
    lemma_with_field_emittable(f6, "cicd"@, v7);
    assert(stack_fields(s) == f7);
}

/// Reading the stack section that was written gives it back.
pub proof fn lemma_stack_round_trip(s: StackView)
    ensures
        stack_of(stack_value(s)) == Ok::<StackView, FafErrorView>(s),
{
    lemma_stack_lookups(s);
    let pairs = stack_fields(s);
    assert(section_pairs(stack_value(s), "stack"@)
        == Ok::<Pairs, FafErrorView>(pairs));
    assert(optional_text(pairs, "frontend"@, "stack.frontend"@)
        == Ok::<Option<Seq<char>>, FafErrorView>(s.frontend));
    assert(optional_text(pairs, "backend"@, "stack.backend"@)
        == Ok::<Option<Seq<char>>, FafErrorView>(s.backend));
    assert(optional_text(pairs, "database"@, "stack.database"@)
        == Ok::<Option<Seq<char>>, FafErrorView>(s.database));
    assert(optional_text(pairs, "infrastructure"@, "stack.infrastructure"@)
        == Ok::<Option<Seq<char>>, FafErrorView>(s.infrastructure));
    assert(optional_text(pairs, "build_tool"@, "stack.build_tool"@)
        == Ok::<Option<Seq<char>>, FafErrorView>(s.build_tool));
    assert(optional_text(pairs, "testing"@, "stack.testing"@)
        == Ok::<Option<Seq<char>>, FafErrorView>(s.testing));
    assert(optional_text(pairs, "cicd"@, "stack.cicd"@)
        == Ok::<Option<Seq<char>>, FafErrorView>(s.cicd));
}

/// How the keys of the context quality section are spelled: the length of each
/// and its first characters, which tell any two of them apart.
proof fn lemma_context_quality_keys()
    ensures
        "slots_filled"@.len() == 12,
        "slots_filled"@[0] == 's',
        "slots_filled"@[1] == 'l',
        "slots_filled"@[2] == 'o',
        "slots_filled"@[3] == 't',
        "confidence"@.len() == 10,
        "confidence"@[0] == 'c',
        "confidence"@[1] == 'o',
        "confidence"@[2] == 'n',
        "confidence"@[3] == 'f',
        "handoff_ready"@.len() == 13,
        "handoff_ready"@[0] == 'h',
        "handoff_ready"@[1] == 'a',
        "handoff_ready"@[2] == 'n',
        "handoff_ready"@[3] == 'd',
        "missing_context"@.len() == 15,
        "missing_context"@[0] == 'm',
        "missing_context"@[1] == 'i',
        "missing_context"@[2] == 's',
        "missing_context"@[3] == 's',
{
    reveal_strlit("slots_filled");
    reveal_strlit("confidence");
    reveal_strlit("handoff_ready");
    reveal_strlit("missing_context");
}

/// Under each key of the context quality section stands the field that was written
/// under it.
proof fn lemma_context_quality_lookups(s: ContextQualityView)
    ensures
        lookup(context_quality_fields(s), "slots_filled"@) == text_field(s.slots_filled),
        lookup(context_quality_fields(s), "confidence"@) == text_field(s.confidence),
        lookup(context_quality_fields(s), "handoff_ready"@)
            == Some(YamlValue::Bool(s.handoff_ready)),
        lookup(context_quality_fields(s), "missing_context"@) == list_field(s.missing_context),
{
    broadcast use {lemma_lookup_with_field, lemma_lookup_empty};
    lemma_context_quality_keys();
}

/// The context quality section, written as a mapping, is emittable.
pub proof fn lemma_context_quality_emittable(s: ContextQualityView)
    ensures
        context_quality_value(s).emittable(),
{
    broadcast use {lemma_lookup_with_field, lemma_lookup_empty};
    lemma_context_quality_keys();
    let f0 = Pairs::empty();
    let v1 = text_field(s.slots_filled);
    let f1 = with_field(f0, "slots_filled"@, v1);
    let v2 = text_field(s.confidence);
    let f2 = with_field(f1, "confidence"@, v2);
    let v3 = Some(YamlValue::Bool(s.handoff_ready));
    let f3 = with_field(f2, "handoff_ready"@, v3);
    let v4 = list_field(s.missing_context);
    let f4 = with_field(f3, "missing_context"@, v4);
    assert(emittable_pairs(f0));
    lemma_with_field_emittable(f0, "slots_filled"@, v1);
    lemma_with_field_emittable(f1, "confidence"@, v2);
    lemma_with_field_emittable(f2, "handoff_ready"@, v3);
    lemma_texts_read_back(s.missing_context);
    lemma_with_field_emittable(f3, "missing_context"@, v4);
    assert(context_quality_fields(s) == f4);
}

/// Reading the context quality section that was written gives it back.
pub proof fn lemma_context_quality_round_trip(s: ContextQualityView)
    ensures
        context_quality_of(context_quality_value(s)) == Ok::<ContextQualityView, FafErrorView>(s),
{
    lemma_context_quality_lookups(s);
    let pairs = context_quality_fields(s);
    assert(section_pairs(context_quality_value(s), "context_quality"@)
        == Ok::<Pairs, FafErrorView>(pairs));
    assert(optional_text(pairs, "slots_filled"@, "context_quality.slots_filled"@)
        == Ok::<Option<Seq<char>>, FafErrorView>(s.slots_filled));
    assert(optional_text(pairs, "confidence"@, "context_quality.confidence"@)
        == Ok::<Option<Seq<char>>, FafErrorView>(s.confidence));
    assert(flag(pairs, "handoff_ready"@, "context_quality.handoff_ready"@)
        == Ok::<bool, FafErrorView>(s.handoff_ready));
    assert(text_list(pairs, "missing_context"@, "context_quality.missing_context"@)
        == Ok::<Seq<Seq<char>>, FafErrorView>(s.missing_context)) by {
        lemma_texts_read_back(s.missing_context);
        if s.missing_context.len() == 0 {
            assert(s.missing_context =~= Seq::<Seq<char>>::empty());
        }
    }
}

/// How the keys of the human context are spelled: the length of each
/// and its first characters, which tell any two of them apart.
proof fn lemma_human_context_keys()
    ensures
        "who"@.len() == 3,
        "who"@[0] == 'w',
        "who"@[1] == 'h',
        "who"@[2] == 'o',
        "what"@.len() == 4,
        "what"@[0] == 'w',
        "what"@[1] == 'h',
        "what"@[2] == 'a',
        "what"@[3] == 't',
        "why"@.len() == 3,
        "why"@[0] == 'w',
        "why"@[1] == 'h',
        "why"@[2] == 'y',
        "how"@.len() == 3,
        "how"@[0] == 'h',
        "how"@[1] == 'o',
        "how"@[2] == 'w',
        "where"@.len() == 5,
        "where"@[0] == 'w',
        "where"@[1] == 'h',
        "where"@[2] == 'e',
        "where"@[3] == 'r',
        "when"@.len() == 4,
        "when"@[0] == 'w',
        "when"@[1] == 'h',
        "when"@[2] == 'e',
        "when"@[3] == 'n',
{
    reveal_strlit("who");
    reveal_strlit("what");
    reveal_strlit("why");
    reveal_strlit("how");
    reveal_strlit("where");
    reveal_strlit("when");
}

/// Under each key of the human context stands the field that was written
/// under it.
proof fn lemma_human_context_lookups(s: HumanContextView)
    ensures
        lookup(human_context_fields(s), "who"@) == text_field(s.who),
        lookup(human_context_fields(s), "what"@) == text_field(s.what),
        lookup(human_context_fields(s), "why"@) == text_field(s.why_field),
        lookup(human_context_fields(s), "how"@) == text_field(s.how),
        lookup(human_context_fields(s), "where"@) == text_field(s.where_field),
        lookup(human_context_fields(s), "when"@) == text_field(s.when),
{
    broadcast use {lemma_lookup_with_field, lemma_lookup_empty};
    lemma_human_context_keys();
}

/// The human context, written as a mapping, is emittable.
pub proof fn lemma_human_context_emittable(s: HumanContextView)
    ensures
        human_context_value(s).emittable(),
{
    broadcast use {lemma_lookup_with_field, lemma_lookup_empty};
    lemma_human_context_keys();
    let f0 = Pairs::empty();
    let v1 = text_field(s.who);
    let f1 = with_field(f0, "who"@, v1);
    let v2 = text_field(s.what);
    let f2 = with_field(f1, "what"@, v2);
    let v3 = text_field(s.why_field);
    let f3 = with_field(f2, "why"@, v3);
    let v4 = text_field(s.how);
    let f4 = with_field(f3, "how"@, v4);
    let v5 = text_field(s.where_field);
    let f5 = with_field(f4, "where"@, v5);
    let v6 = text_field(s.when);
    let f6 = with_field(f5, "when"@, v6);
    assert(emittable_pairs(f0));
    lemma_with_field_emittable(f0, "who"@, v1);
    lemma_with_field_emittable(f1, "what"@, v2);
    lemma_with_field_emittable(f2, "why"@, v3);
    lemma_with_field_emittable(f3, "how"@, v4);
    lemma_with_field_emittable(f4, "where"@, v5);
    lemma_with_field_emittable(f5, "when"@, v6);
    assert(human_context_fields(s) == f6);
}

/// Reading the human context that was written gives it back.
pub proof fn lemma_human_context_round_trip(s: HumanContextView)
    ensures
        human_context_of(human_context_value(s)) == Ok::<HumanContextView, FafErrorView>(s),
{
    lemma_human_context_lookups(s);
    let pairs = human_context_fields(s);
    assert(section_pairs(human_context_value(s), "human_context"@)
        == Ok::<Pairs, FafErrorView>(pairs));
    assert(optional_text(pairs, "who"@, "human_context.who"@)
        == Ok::<Option<Seq<char>>, FafErrorView>(s.who));
    assert(optional_text(pairs, "what"@, "human_context.what"@)
        == Ok::<Option<Seq<char>>, FafErrorView>(s.what));
    assert(optional_text(pairs, "why"@, "human_context.why"@)
        == Ok::<Option<Seq<char>>, FafErrorView>(s.why_field));
    assert(optional_text(pairs, "how"@, "human_context.how"@)
        == Ok::<Option<Seq<char>>, FafErrorView>(s.how));
    assert(optional_text(pairs, "where"@, "human_context.where"@)
        == Ok::<Option<Seq<char>>, FafErrorView>(s.where_field));
    assert(optional_text(pairs, "when"@, "human_context.when"@)
        == Ok::<Option<Seq<char>>, FafErrorView>(s.when));
}

/// How the keys of the preferences section are spelled: the length of each
/// and its first characters, which tell any two of them apart.
proof fn lemma_preferences_keys()
    ensures
        "quality_bar"@.len() == 11,
        "quality_bar"@[0] == 'q',
        "quality_bar"@[1] == 'u',
        "quality_bar"@[2] == 'a',
        "quality_bar"@[3] == 'l',
        "testing"@.len() == 7,
        "testing"@[0] == 't',
        "testing"@[1] == 'e',
        "testing"@[2] == 's',
        "testing"@[3] == 't',
        "documentation"@.len() == 13,
        "documentation"@[0] == 'd',
        "documentation"@[1] == 'o',
        "documentation"@[2] == 'c',
        "documentation"@[3] == 'u',
        "code_style"@.len() == 10,
        "code_style"@[0] == 'c',
        "code_style"@[1] == 'o',
        "code_style"@[2] == 'd',
        "code_style"@[3] == 'e',
{
    reveal_strlit("quality_bar");
    reveal_strlit("testing");
    reveal_strlit("documentation");
    reveal_strlit("code_style");
}

/// Under each key of the preferences section stands the field that was written
/// under it.
proof fn lemma_preferences_lookups(s: PreferencesView)
    ensures
        lookup(preferences_fields(s), "quality_bar"@) == text_field(s.quality_bar),
        lookup(preferences_fields(s), "testing"@) == text_field(s.testing),
        lookup(preferences_fields(s), "documentation"@) == text_field(s.documentation),
        lookup(preferences_fields(s), "code_style"@) == text_field(s.code_style),
{
    broadcast use {lemma_lookup_with_field, lemma_lookup_empty};
    lemma_preferences_keys();
}

/// The preferences section, written as a mapping, is emittable.
pub proof fn lemma_preferences_emittable(s: PreferencesView)
    ensures
        preferences_value(s).emittable(),
{
    broadcast use {lemma_lookup_with_field, lemma_lookup_empty};
    lemma_preferences_keys();
    let f0 = Pairs::empty();
    let v1 = text_field(s.quality_bar);
    let f1 = with_field(f0, "quality_bar"@, v1);
    let v2 = text_field(s.testing);
    let f2 = with_field(f1, "testing"@, v2);
    let v3 = text_field(s.documentation);
    let f3 = with_field(f2, "documentation"@, v3);
    let v4 = text_field(s.code_style);
    let f4 = with_field(f3, "code_style"@, v4);
    assert(emittable_pairs(f0));
    lemma_with_field_emittable(f0, "quality_bar"@, v1);
    lemma_with_field_emittable(f1, "testing"@, v2);
    lemma_with_field_emittable(f2, "documentation"@, v3);
    lemma_with_field_emittable(f3, "code_style"@, v4);
    assert(preferences_fields(s) == f4);
}

/// Reading the preferences section that was written gives it back.
pub proof fn lemma_preferences_round_trip(s: PreferencesView)
    ensures
        preferences_of(preferences_value(s)) == Ok::<PreferencesView, FafErrorView>(s),
{
    lemma_preferences_lookups(s);
    let pairs = preferences_fields(s);
    assert(section_pairs(preferences_value(s), "preferences"@)
        == Ok::<Pairs, FafErrorView>(pairs));
    assert(optional_text(pairs, "quality_bar"@, "preferences.quality_bar"@)
        == Ok::<Option<Seq<char>>, FafErrorView>(s.quality_bar));
    assert(optional_text(pairs, "testing"@, "preferences.testing"@)
        == Ok::<Option<Seq<char>>, FafErrorView>(s.testing));
    assert(optional_text(pairs, "documentation"@, "preferences.documentation"@)
        == Ok::<Option<Seq<char>>, FafErrorView>(s.documentation));
    assert(optional_text(pairs, "code_style"@, "preferences.code_style"@)
        == Ok::<Option<Seq<char>>, FafErrorView>(s.code_style));
}

/// How the keys of the state section are spelled: the length of each
/// and its first characters, which tell any two of them apart.
proof fn lemma_state_keys()
    ensures
        "phase"@.len() == 5,
        "phase"@[0] == 'p',
        "phase"@[1] == 'h',
        "phase"@[2] == 'a',
        "phase"@[3] == 's',
        "version"@.len() == 7,
        "version"@[0] == 'v',
        "version"@[1] == 'e',
        "version"@[2] == 'r',
        "version"@[3] == 's',
        "focus"@.len() == 5,
        "focus"@[0] == 'f',
        "focus"@[1] == 'o',
        "focus"@[2] == 'c',
        "focus"@[3] == 'u',
        "milestones"@.len() == 10,
        "milestones"@[0] == 'm',
        "milestones"@[1] == 'i',
        "milestones"@[2] == 'l',
        "milestones"@[3] == 'e',
{
    reveal_strlit("phase");
    reveal_strlit("version");
    reveal_strlit("focus");
    reveal_strlit("milestones");
}

/// Under each key of the state section stands the field that was written
/// under it.
proof fn lemma_state_lookups(s: StateView)
    ensures
        lookup(state_fields(s), "phase"@) == text_field(s.phase),
        lookup(state_fields(s), "version"@) == text_field(s.version),
        lookup(state_fields(s), "focus"@) == text_field(s.focus),
        lookup(state_fields(s), "milestones"@) == list_field(s.milestones),
{
    broadcast use {lemma_lookup_with_field, lemma_lookup_empty};
    lemma_state_keys();
}

/// The state section, written as a mapping, is emittable.
pub proof fn lemma_state_emittable(s: StateView)
    ensures
        state_value(s).emittable(),
{
    broadcast use {lemma_lookup_with_field, lemma_lookup_empty};
    lemma_state_keys();
    let f0 = Pairs::empty();
    let v1 = text_field(s.phase);
    let f1 = with_field(f0, "phase"@, v1);
    let v2 = text_field(s.version);
    let f2 = with_field(f1, "version"@, v2);
    let v3 = text_field(s.focus);
    let f3 = with_field(f2, "focus"@, v3);
    let v4 = list_field(s.milestones);
    let f4 = with_field(f3, "milestones"@, v4);
    assert(emittable_pairs(f0));
    lemma_with_field_emittable(f0, "phase"@, v1);
    lemma_with_field_emittable(f1, "version"@, v2);
    lemma_with_field_emittable(f2, "focus"@, v3);
    lemma_texts_read_back(s.milestones);
    lemma_with_field_emittable(f3, "milestones"@, v4);
    assert(state_fields(s) == f4);
}

/// Reading the state section that was written gives it back.
pub proof fn lemma_state_round_trip(s: StateView)
    ensures
        state_of(state_value(s)) == Ok::<StateView, FafErrorView>(s),
{
    lemma_state_lookups(s);
    let pairs = state_fields(s);
    assert(section_pairs(state_value(s), "state"@)
        == Ok::<Pairs, FafErrorView>(pairs));
    assert(optional_text(pairs, "phase"@, "state.phase"@)
        == Ok::<Option<Seq<char>>, FafErrorView>(s.phase));
    assert(optional_text(pairs, "version"@, "state.version"@)
        == Ok::<Option<Seq<char>>, FafErrorView>(s.version));
    assert(optional_text(pairs, "focus"@, "state.focus"@)
        == Ok::<Option<Seq<char>>, FafErrorView>(s.focus));
    assert(text_list(pairs, "milestones"@, "state.milestones"@)
        == Ok::<Seq<Seq<char>>, FafErrorView>(s.milestones)) by {
        lemma_texts_read_back(s.milestones);
        if s.milestones.len() == 0 {
            assert(s.milestones =~= Seq::<Seq<char>>::empty());
        }
    }
}

/// How the keys of a document are spelled: the length of each
/// and its first characters, which tell any two of them apart.
proof fn lemma_document_keys()
    ensures
        "faf_version"@.len() == 11,
        "faf_version"@[0] == 'f',
        "faf_version"@[1] == 'a',
        "faf_version"@[2] == 'f',
        "faf_version"@[3] == '_',
        "project"@.len() == 7,
        "project"@[0] == 'p',
        "project"@[1] == 'r',
        "project"@[2] == 'o',
        "project"@[3] == 'j',
        "ai_score"@.len() == 8,
        "ai_score"@[0] == 'a',
        "ai_score"@[1] == 'i',
        "ai_score"@[2] == '_',
        "ai_score"@[3] == 's',
        "ai_confidence"@.len() == 13,
        "ai_confidence"@[0] == 'a',
        "ai_confidence"@[1] == 'i',
        "ai_confidence"@[2] == '_',
        "ai_confidence"@[3] == 'c',
        "ai_tldr"@.len() == 7,
        "ai_tldr"@[0] == 'a',
        "ai_tldr"@[1] == 'i',
        "ai_tldr"@[2] == '_',
        "ai_tldr"@[3] == 't',
        "instant_context"@.len() == 15,
        "instant_context"@[0] == 'i',
        "instant_context"@[1] == 'n',
        "instant_context"@[2] == 's',
        "instant_context"@[3] == 't',
        "context_quality"@.len() == 15,
        "context_quality"@[0] == 'c',
        "context_quality"@[1] == 'o',
        "context_quality"@[2] == 'n',
        "context_quality"@[3] == 't',
        "stack"@.len() == 5,
        "stack"@[0] == 's',
        "stack"@[1] == 't',
        "stack"@[2] == 'a',
        "stack"@[3] == 'c',
        "human_context"@.len() == 13,
        "human_context"@[0] == 'h',
        "human_context"@[1] == 'u',
        "human_context"@[2] == 'm',
        "human_context"@[3] == 'a',
        "preferences"@.len() == 11,
        "preferences"@[0] == 'p',
        "preferences"@[1] == 'r',
        "preferences"@[2] == 'e',
        "preferences"@[3] == 'f',
        "state"@.len() == 5,
        "state"@[0] == 's',
        "state"@[1] == 't',
        "state"@[2] == 'a',
        "state"@[3] == 't',
        "tags"@.len() == 4,
        "tags"@[0] == 't',
        "tags"@[1] == 'a',
        "tags"@[2] == 'g',
        "tags"@[3] == 's',
{
    reveal_strlit("faf_version");
    reveal_strlit("project");
    reveal_strlit("ai_score");
    reveal_strlit("ai_confidence");
    reveal_strlit("ai_tldr");
    reveal_strlit("instant_context");
    reveal_strlit("context_quality");
    reveal_strlit("stack");
    reveal_strlit("human_context");
    reveal_strlit("preferences");
    reveal_strlit("state");
    reveal_strlit("tags");
}

/// Under each key of a document stands the field that was written
/// under it.
proof fn lemma_document_lookups(d: FafDataView)
    ensures
        lookup(document_fields(d), "faf_version"@) == Some(YamlValue::Text(d.faf_version)),
        lookup(document_fields(d), "project"@) == Some(project_value(d.project)),
        lookup(document_fields(d), "ai_score"@) == text_field(d.ai_score),
        lookup(document_fields(d), "ai_confidence"@) == text_field(d.ai_confidence),
        lookup(document_fields(d), "ai_tldr"@) == optional_map_field(d.ai_tldr),
        lookup(document_fields(d), "instant_context"@) == (match d.instant_context {
            Some(x) => Some(instant_context_value(x)),
            None => None,
        }),
        lookup(document_fields(d), "context_quality"@) == (match d.context_quality {
            Some(x) => Some(context_quality_value(x)),
            None => None,
        }),
        lookup(document_fields(d), "stack"@) == (match d.stack {
            Some(x) => Some(stack_value(x)),
            None => None,
        }),
        lookup(document_fields(d), "human_context"@) == (match d.human_context {
            Some(x) => Some(human_context_value(x)),
            None => None,
        }),
        lookup(document_fields(d), "preferences"@) == (match d.preferences {
            Some(x) => Some(preferences_value(x)),
            None => None,
        }),
        lookup(document_fields(d), "state"@) == (match d.state {
            Some(x) => Some(state_value(x)),
            None => None,
        }),
        lookup(document_fields(d), "tags"@) == list_field(d.tags),
{
    broadcast use {lemma_lookup_with_field, lemma_lookup_empty};
    lemma_document_keys();
}

/// A document, written as a mapping, is emittable.
pub proof fn lemma_document_emittable(d: FafDataView)
    requires
        d.wf(),
    ensures
        document_value(d).emittable(),
{
    broadcast use {lemma_lookup_with_field, lemma_lookup_empty};
    lemma_document_keys();
    let f0 = Pairs::empty();
    let v1 = Some(YamlValue::Text(d.faf_version));
    let f1 = with_field(f0, "faf_version"@, v1);
    let v2 = Some(project_value(d.project));
    let f2 = with_field(f1, "project"@, v2);
    let v3 = text_field(d.ai_score);
    let f3 = with_field(f2, "ai_score"@, v3);
    let v4 = text_field(d.ai_confidence);
    let f4 = with_field(f3, "ai_confidence"@, v4);
    let v5 = optional_map_field(d.ai_tldr);
    let f5 = with_field(f4, "ai_tldr"@, v5);
    let v6 = section_field(d.instant_context, |x: InstantContextView| instant_context_value(x));
    let f6 = with_field(f5, "instant_context"@, v6);
    let v7 = section_field(d.context_quality, |x: ContextQualityView| context_quality_value(x));
    let f7 = with_field(f6, "context_quality"@, v7);
    let v8 = section_field(d.stack, |x: StackView| stack_value(x));
    let f8 = with_field(f7, "stack"@, v8);
    let v9 = section_field(d.human_context, |x: HumanContextView| human_context_value(x));
    let f9 = with_field(f8, "human_context"@, v9);
    let v10 = section_field(d.preferences, |x: PreferencesView| preferences_value(x));
    let f10 = with_field(f9, "preferences"@, v10);
    let v11 = section_field(d.state, |x: StateView| state_value(x));
    let f11 = with_field(f10, "state"@, v11);
    let v12 = list_field(d.tags);
    let f12 = with_field(f11, "tags"@, v12);
    assert(emittable_pairs(f0));
    lemma_with_field_emittable(f0, "faf_version"@, v1);
    lemma_project_emittable(d.project);
    lemma_with_field_emittable(f1, "project"@, v2);
    lemma_with_field_emittable(f2, "ai_score"@, v3);
    lemma_with_field_emittable(f3, "ai_confidence"@, v4);
    if d.ai_tldr is Some {
        lemma_entries_read_back(d.ai_tldr->0, Seq::empty());
    }
    lemma_with_field_emittable(f4, "ai_tldr"@, v5);
    if d.instant_context is Some {
        lemma_instant_context_emittable(d.instant_context->0);
    }
    lemma_with_field_emittable(f5, "instant_context"@, v6);
    if d.context_quality is Some {
        lemma_context_quality_emittable(d.context_quality->0);
    }
    lemma_with_field_emittable(f6, "context_quality"@, v7);
    if d.stack is Some {
        lemma_stack_emittable(d.stack->0);
    }
    lemma_with_field_emittable(f7, "stack"@, v8);
    if d.human_context is Some {
        lemma_human_context_emittable(d.human_context->0);
    }
    lemma_with_field_emittable(f8, "human_context"@, v9);
    if d.preferences is Some {
        lemma_preferences_emittable(d.preferences->0);
    }
    lemma_with_field_emittable(f9, "preferences"@, v10);
    if d.state is Some {
        lemma_state_emittable(d.state->0);
    }
    lemma_with_field_emittable(f10, "state"@, v11);
    lemma_texts_read_back(d.tags);
    lemma_with_field_emittable(f11, "tags"@, v12);
    assert(document_fields(d) == f12);
}

/// Reading a document that was written gives it back.
pub proof fn lemma_document_round_trip(d: FafDataView)
    requires
        d.wf(),
    ensures
        document_of(document_value(d)) == Ok::<FafDataView, FafErrorView>(d),
{
    lemma_document_lookups(d);
    let pairs = document_fields(d);
    assert(section_pairs(document_value(d), "document"@)
        == Ok::<Pairs, FafErrorView>(pairs));
    assert(required_text(pairs, "faf_version"@, "faf_version"@)
        == Ok::<Seq<char>, FafErrorView>(d.faf_version));
    assert(required_section(pairs, "project"@, "project"@, |x: YamlValue| project_of(x))
        == Ok::<ProjectView, FafErrorView>(d.project)) by {
        lemma_project_round_trip(d.project);
    }
    assert(optional_text(pairs, "ai_score"@, "ai_score"@)
        == Ok::<Option<Seq<char>>, FafErrorView>(d.ai_score));
    assert(optional_text(pairs, "ai_confidence"@, "ai_confidence"@)
        == Ok::<Option<Seq<char>>, FafErrorView>(d.ai_confidence));
    assert(optional_text_map(pairs, "ai_tldr"@, "ai_tldr"@)
        == Ok::<Option<Entries>, FafErrorView>(d.ai_tldr)) by {
        if d.ai_tldr is Some {
            lemma_entries_read_back(d.ai_tldr->0, "ai_tldr"@);
        }
    }
    assert(optional_section(pairs, "instant_context"@, |x: YamlValue| instant_context_of(x))
        == Ok::<Option<InstantContextView>, FafErrorView>(d.instant_context)) by {
        if d.instant_context is Some {
            lemma_instant_context_round_trip(d.instant_context->0);
        }
    }
    assert(optional_section(pairs, "context_quality"@, |x: YamlValue| context_quality_of(x))
        == Ok::<Option<ContextQualityView>, FafErrorView>(d.context_quality)) by {
        if d.context_quality is Some {
            lemma_context_quality_round_trip(d.context_quality->0);
        }
    }
    assert(optional_section(pairs, "stack"@, |x: YamlValue| stack_of(x))
        == Ok::<Option<StackView>, FafErrorView>(d.stack)) by {
        if d.stack is Some {
            lemma_stack_round_trip(d.stack->0);
        }
    }
    assert(optional_section(pairs, "human_context"@, |x: YamlValue| human_context_of(x))
        == Ok::<Option<HumanContextView>, FafErrorView>(d.human_context)) by {
        if d.human_context is Some {
            lemma_human_context_round_trip(d.human_context->0);
        }
    }
    assert(optional_section(pairs, "preferences"@, |x: YamlValue| preferences_of(x))
        == Ok::<Option<PreferencesView>, FafErrorView>(d.preferences)) by {
        if d.preferences is Some {
            lemma_preferences_round_trip(d.preferences->0);
        }
    }
    assert(optional_section(pairs, "state"@, |x: YamlValue| state_of(x))
        == Ok::<Option<StateView>, FafErrorView>(d.state)) by {
        if d.state is Some {
            lemma_state_round_trip(d.state->0);
        }
    }
    assert(text_list(pairs, "tags"@, "tags"@)
        == Ok::<Seq<Seq<char>>, FafErrorView>(d.tags)) by {
        lemma_texts_read_back(d.tags);
        if d.tags.len() == 0 {
            assert(d.tags =~= Seq::<Seq<char>>::empty());
        }
    }
}

} // verus!
