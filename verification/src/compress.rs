//! Reduced views of a document, for readers with a size budget.

use vstd::prelude::*;
use crate::parser::FafFile;
use crate::string_map::{Entries, StringMap};
use crate::types::{
    copy_prefix, copy_text, FafData, FafDataView, InstantContext, InstantContextView, Project,
    ProjectView,
};

verus! {

/// How much of a document a compression keeps.
#[derive(Debug, Clone, Copy, PartialEq, Eq)]
pub enum CompressionLevel {
    /// The project's name and goal and the tech stack: about 150 tokens.
    Minimal,
    /// The project, the score, the core of the instant context and the
    /// stack: about 400 tokens.
    Standard,
    /// Everything: about 800 tokens.
    Full,
}

/// The number of key files that the standard level keeps.
pub const STANDARD_KEY_FILES: usize = 5;

/// The first `n` items of `items`, or all of them where there are fewer.
pub open spec fn first_items(items: Seq<Seq<char>>, n: nat) -> Seq<Seq<char>> {
    if items.len() <= n {
        items
    } else {
        items.take(n as int)
    }
}

/// The minimal view of a document: its version, the project's name and goal,
/// and the tech stack of the instant context.
pub open spec fn minimal(d: FafDataView) -> FafDataView {
    FafDataView {
        faf_version: d.faf_version,
        project: ProjectView {
            name: d.project.name,
            goal: d.project.goal,
            main_language: None,
            approach: None,
            version: None,
            license: None,
        },
        ai_score: None,
        ai_confidence: None,
        ai_tldr: None,
        instant_context: match d.instant_context {
            Some(ic) => Some(
                InstantContextView {
                    what_building: None,
                    tech_stack: ic.tech_stack,
                    deployment: None,
                    key_files: Seq::empty(),
                    commands: Entries::empty(),
                },
            ),
            None => None,
        },
        context_quality: None,
        stack: None,
        human_context: None,
        preferences: None,
        state: None,
        tags: Seq::empty(),
    }
}

/// The standard view of a document: its version, the whole project, the
/// score, the stack, and of the instant context what is being built, the
/// tech stack and the first five key files.
pub open spec fn standard(d: FafDataView) -> FafDataView {
    FafDataView {
        faf_version: d.faf_version,
        project: d.project,
        ai_score: d.ai_score,
        ai_confidence: None,
        ai_tldr: None,
        instant_context: match d.instant_context {
            Some(ic) => Some(
                InstantContextView {
                    what_building: ic.what_building,
                    tech_stack: ic.tech_stack,
                    deployment: None,
                    key_files: first_items(ic.key_files, STANDARD_KEY_FILES as nat),
                    commands: Entries::empty(),
                },
            ),
            None => None,
        },
        context_quality: None,
        stack: d.stack,
        human_context: None,
        preferences: None,
        state: None,
        tags: Seq::empty(),
    }
}

/// The view of a document at a level.
pub open spec fn compressed(d: FafDataView, level: CompressionLevel) -> FafDataView {
    match level {
        CompressionLevel::Minimal => minimal(d),
        CompressionLevel::Standard => standard(d),
        CompressionLevel::Full => d,
    }
}

/// The nominal token budget of a level.
pub open spec fn token_budget(level: CompressionLevel) -> nat {
    match level {
        CompressionLevel::Minimal => 150,
        CompressionLevel::Standard => 400,
        CompressionLevel::Full => 800,
    }
}

/// The full level keeps the document as it is.
pub proof fn lemma_full_keeps_everything(d: FafDataView)
    ensures
        compressed(d, CompressionLevel::Full) == d,
{
}

/// The standard level keeps at most five key files: the first ones, in their
/// order.
pub proof fn lemma_standard_keeps_first_key_files(d: FafDataView)
    requires
        d.instant_context is Some,
    ensures
        ({
            let before = d.instant_context->0.key_files;
            let after = standard(d).instant_context->0.key_files;
            &&& after.len() == if before.len() <= 5 { before.len() } else { 5 }
            &&& forall|i: int| 0 <= i < after.len() ==> after[i] == before[i]
        }),
{
}

/// The minimal level keeps the tech stack and drops what is being built.
pub proof fn lemma_minimal_keeps_tech_stack_only(d: FafDataView)
    requires
        d.instant_context is Some,
    ensures
        minimal(d).instant_context is Some,
        minimal(d).instant_context->0.tech_stack == d.instant_context->0.tech_stack,
        minimal(d).instant_context->0.what_building is None,
        minimal(d).instant_context->0.key_files.len() == 0,
{
}

/// Each level keeps a part of what the level above keeps: the minimal view
/// of the standard view is the minimal view, and compressing twice at one
/// level changes nothing more.
pub proof fn lemma_levels_nest(d: FafDataView)
    ensures
        minimal(standard(d)) == minimal(d),
        minimal(minimal(d)) == minimal(d),
        standard(standard(d)) == standard(d),
        standard(minimal(d)) == minimal(d),
{
    if d.instant_context is Some {
        let files = d.instant_context->0.key_files;
        assert(first_items(first_items(files, 5), 5) =~= first_items(files, 5));
        assert(first_items(Seq::<Seq<char>>::empty(), 5) =~= Seq::<Seq<char>>::empty());
    }
}

/// A compressed document holds no key twice in any mapping.
pub proof fn lemma_compressed_wf(d: FafDataView, level: CompressionLevel)
    requires
        d.wf(),
    ensures
        compressed(d, level).wf(),
{
}

/// The view of `faf`'s document at `level`. The document itself is left as it
/// is.
pub fn compress(faf: &FafFile, level: CompressionLevel) -> (r: FafData)
    ensures
        r@ == compressed(faf@.data, level),
{
    match level {
        CompressionLevel::Minimal => compress_minimal(faf),
        CompressionLevel::Standard => compress_standard(faf),
        CompressionLevel::Full => faf.data.clone(),
    }
}

/// The minimal view of `faf`'s document.
pub fn compress_minimal(faf: &FafFile) -> (r: FafData)
    ensures
        r@ == minimal(faf@.data),
{
    let tags: Vec<String> = Vec::new();
    assert(tags.deep_view() =~= Seq::<Seq<char>>::empty());
    FafData {
        faf_version: faf.data.faf_version.clone(),
        project: Project {
            name: faf.data.project.name.clone(),
            goal: copy_text(&faf.data.project.goal),
            main_language: None,
            approach: None,
            version: None,
            license: None,
        },
        ai_score: None,
        ai_confidence: None,
        ai_tldr: None,
        instant_context: match &faf.data.instant_context {
            Some(ic) => {
                let key_files: Vec<String> = Vec::new();
                assert(key_files.deep_view() =~= Seq::<Seq<char>>::empty());
                Some(
                    InstantContext {
                        what_building: None,
                        tech_stack: copy_text(&ic.tech_stack),
                        deployment: None,
                        key_files,
                        commands: StringMap::new(),
                    },
                )
            },
            None => None,
        },
        context_quality: None,
        stack: None,
        human_context: None,
        preferences: None,
        state: None,
        tags,
    }
}

/// The standard view of `faf`'s document.
pub fn compress_standard(faf: &FafFile) -> (r: FafData)
    ensures
        r@ == standard(faf@.data),
{
    let tags: Vec<String> = Vec::new();
    assert(tags.deep_view() =~= Seq::<Seq<char>>::empty());
    FafData {
        faf_version: faf.data.faf_version.clone(),
        project: faf.data.project.clone(),
        ai_score: copy_text(&faf.data.ai_score),
        ai_confidence: None,
        ai_tldr: None,
        instant_context: match &faf.data.instant_context {
            Some(ic) => {
                let kept: usize = if ic.key_files.len() <= STANDARD_KEY_FILES {
                    ic.key_files.len()
                } else {
                    STANDARD_KEY_FILES
                };
                let key_files = copy_prefix(&ic.key_files, kept);
                assert(ic.key_files.deep_view().take(ic.key_files.len() as int)
                    =~= ic.key_files.deep_view());
                Some(
                    InstantContext {
                        what_building: copy_text(&ic.what_building),
                        tech_stack: copy_text(&ic.tech_stack),
                        deployment: None,
                        key_files,
                        commands: StringMap::new(),
                    },
                )
            },
            None => None,
        },
        context_quality: None,
        stack: match &faf.data.stack {
            Some(s) => Some(s.clone()),
            None => None,
        },
        human_context: None,
        preferences: None,
        state: None,
        tags,
    }
}

/// The nominal token budget of a level: a fixed figure, no measurement.
pub fn estimate_tokens(level: CompressionLevel) -> (n: usize)
    ensures
        n == token_budget(level),
{
    match level {
        CompressionLevel::Minimal => 150,
        CompressionLevel::Standard => 400,
        CompressionLevel::Full => 800,
    }
}

} // verus!
