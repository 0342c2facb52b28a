//! Validation of a parsed document: required fields, recommended sections
//! and a completeness score.

use vstd::prelude::*;
use vstd::string::StringExecFns;
use crate::parser::FafFile;
use crate::types::FafDataView;

verus! {

/// What validation found.
#[derive(Debug, PartialEq, Eq)]
pub struct ValidationResult {
    /// True if there are no errors.
    pub valid: bool,
    /// Critical errors.
    pub errors: Vec<String>,
    /// Non-critical warnings.
    pub warnings: Vec<String>,
    /// Completeness score, 0 to 100.
    pub score: u8,
}

/// Model of [`ValidationResult`].
pub struct ValidationResultView {
    pub valid: bool,
    pub errors: Seq<Seq<char>>,
    pub warnings: Seq<Seq<char>>,
    pub score: u8,
}

impl View for ValidationResult {
    type V = ValidationResultView;

    open spec fn view(&self) -> ValidationResultView {
        ValidationResultView {
            valid: self.valid,
            errors: self.errors.deep_view(),
            warnings: self.warnings.deep_view(),
            score: self.score,
        }
    }
}

/// `messages` with `message` at its end where `cond` holds, else unchanged.
pub open spec fn with_if(messages: Seq<Seq<char>>, cond: bool, message: Seq<char>) -> Seq<
    Seq<char>,
> {
    if cond {
        messages.push(message)
    } else {
        messages
    }
}

/// The errors of a document: one for an empty `faf_version`, then one for an
/// empty `project.name`.
pub open spec fn errors_of(d: FafDataView) -> Seq<Seq<char>> {
    let e0 = Seq::<Seq<char>>::empty();
    let e1 = with_if(e0, d.faf_version.len() == 0, "Missing faf_version"@);
    with_if(e1, d.project.name.len() == 0, "Missing project.name"@)
}

/// The warnings of a document, in order: for an absent instant context, or
/// else for its absent `what_building` and its absent `tech_stack`; for an
/// absent stack; for an absent human context.
pub open spec fn warnings_of(d: FafDataView) -> Seq<Seq<char>> {
    let w0 = Seq::<Seq<char>>::empty();
    let w1 = match d.instant_context {
        None => w0.push("Missing instant_context section"@),
        Some(ic) => {
            let w = with_if(
                w0,
                ic.what_building is None,
                "Missing instant_context.what_building"@,
            );
            with_if(w, ic.tech_stack is None, "Missing instant_context.tech_stack"@)
        },
    };
    let w2 = with_if(w1, d.stack is None, "Missing stack section"@);
    with_if(w2, d.human_context is None, "Missing human_context section"@)
}

/// `weight` where `cond` holds, else nothing.
pub open spec fn points(cond: bool, weight: nat) -> nat {
    if cond {
        weight
    } else {
        0
    }
}

/// The sum of the weights of what a document holds.
pub open spec fn weight_sum(d: FafDataView) -> nat {
    points(d.faf_version.len() > 0, 10) + points(d.project.name.len() > 0, 10) + points(
        d.project.goal is Some,
        10,
    ) + points(d.instant_context is Some && d.instant_context->0.what_building is Some, 10)
        + points(d.instant_context is Some && d.instant_context->0.tech_stack is Some, 10) + points(
        d.instant_context is Some && d.instant_context->0.key_files.len() > 0,
        10,
    ) + points(d.stack is Some, 15) + points(d.human_context is Some, 15) + points(
        d.tags.len() > 0,
        5,
    ) + points(d.state is Some, 5)
}

/// The completeness score of a document: the sum of its weights, capped at
/// 100.
pub open spec fn completeness(d: FafDataView) -> nat {
    if weight_sum(d) > 100 {
        100
    } else {
        weight_sum(d)
    }
}

/// What validation finds in a document.
pub open spec fn validation_of(d: FafDataView) -> ValidationResultView {
    ValidationResultView {
        valid: errors_of(d).len() == 0,
        errors: errors_of(d),
        warnings: warnings_of(d),
        score: completeness(d) as u8,
    }
}

/// The weights never sum to more than 100, so the cap changes nothing.
pub proof fn lemma_score_bounded(d: FafDataView)
    ensures
        completeness(d) == weight_sum(d),
        completeness(d) <= 100,
{
}

/// A document is valid exactly when its version and its project name are
/// both non-empty; warnings have no part in it.
pub proof fn lemma_valid_iff_required_fields(d: FafDataView)
    ensures
        validation_of(d).valid <==> (d.faf_version.len() > 0 && d.project.name.len() > 0),
{
}

/// A document that holds a version and a project name, both non-empty, and
/// nothing else that is scored, scores exactly 20.
pub proof fn lemma_minimal_document_scores_twenty(d: FafDataView)
    requires
        d.faf_version.len() > 0,
        d.project.name.len() > 0,
        d.project.goal is None,
        d.instant_context is None,
        d.stack is None,
        d.human_context is None,
        d.tags.len() == 0,
        d.state is None,
    ensures
        completeness(d) == 20,
{
}

/// A document that holds everything that is scored scores exactly 100.
pub proof fn lemma_complete_document_scores_hundred(d: FafDataView)
    requires
        d.faf_version.len() > 0,
        d.project.name.len() > 0,
        d.project.goal is Some,
        d.instant_context is Some,
        d.instant_context->0.what_building is Some,
        d.instant_context->0.tech_stack is Some,
        d.instant_context->0.key_files.len() > 0,
        d.stack is Some,
        d.human_context is Some,
        d.tags.len() > 0,
        d.state is Some,
    ensures
        completeness(d) == 100,
{
}

/// Adds `message` to `messages`.
fn note(messages: &mut Vec<String>, message: &str)
    ensures
        final(messages).deep_view() == old(messages).deep_view().push(message@),
{
    messages.push(String::from_str(message));
    assert(messages.deep_view() =~= old(messages).deep_view().push(message@));
}

/// Checks the required fields and the recommended sections of a document and
/// scores its completeness.
pub fn validate(faf: &FafFile) -> (r: ValidationResult)
    ensures
        r@ == validation_of(faf@.data),
{
    let mut errors: Vec<String> = Vec::new();
    let mut warnings: Vec<String> = Vec::new();
    assert(errors.deep_view() =~= Seq::<Seq<char>>::empty());
    assert(warnings.deep_view() =~= Seq::<Seq<char>>::empty());

    if faf.data.faf_version.as_str().is_empty() {
        note(&mut errors, "Missing faf_version");
    }
    if faf.data.project.name.as_str().is_empty() {
        note(&mut errors, "Missing project.name");
    }

    match &faf.data.instant_context {
        None => {
            note(&mut warnings, "Missing instant_context section");
        },
        Some(ic) => {
            if ic.what_building.is_none() {
                note(&mut warnings, "Missing instant_context.what_building");
            }
            if ic.tech_stack.is_none() {
                note(&mut warnings, "Missing instant_context.tech_stack");
            }
        },
    }
    if faf.data.stack.is_none() {
        note(&mut warnings, "Missing stack section");
    }
    if faf.data.human_context.is_none() {
        note(&mut warnings, "Missing human_context section");
    }

    let score = calculate_score(faf);
    let valid = errors.len() == 0;
    ValidationResult { valid, errors, warnings, score }
}

/// The sum of the weights of what is there, capped at 100.
fn weigh(
    version: bool,
    name: bool,
    goal: bool,
    what_building: bool,
    tech_stack: bool,
    key_files: bool,
    stack: bool,
    human_context: bool,
    tags: bool,
    state: bool,
) -> (score: u8)
    ensures
        score == points(version, 10) + points(name, 10) + points(goal, 10) + points(
            what_building,
            10,
        ) + points(tech_stack, 10) + points(key_files, 10) + points(stack, 15) + points(
            human_context,
            15,
        ) + points(tags, 5) + points(state, 5),
        score <= 100,
{
    let mut score: u8 = 0;
    if version {
        score += 10;
    }
    if name {
        score += 10;
    }
    if goal {
        score += 10;
    }
    if what_building {
        score += 10;
    }
    if tech_stack {
        score += 10;
    }
    if key_files {
        score += 10;
    }
    if stack {
        score += 15;
    }
    if human_context {
        score += 15;
    }
    if tags {
        score += 5;
    }
    if state {
        score += 5;
    }
    if score > 100 {
        100
    } else {
        score
    }
}

/// The completeness score of a document, 0 to 100.
pub fn calculate_score(faf: &FafFile) -> (score: u8)
    ensures
        score == completeness(faf@.data),
        score <= 100,
{
    let version = !faf.data.faf_version.as_str().is_empty();
    let name = !faf.data.project.name.as_str().is_empty();
    let goal = faf.data.project.goal.is_some();
    let (what_building, tech_stack, key_files) = match &faf.data.instant_context {
        Some(ic) => (ic.what_building.is_some(), ic.tech_stack.is_some(), ic.key_files.len() > 0),
        None => (false, false, false),
    };
    let stack = faf.data.stack.is_some();
    let human_context = faf.data.human_context.is_some();
    let tags = faf.data.tags.len() > 0;
    let state = faf.data.state.is_some();
    weigh(
        version,
        name,
        goal,
        what_building,
        tech_stack,
        key_files,
        stack,
        human_context,
        tags,
        state,
    )
}

} // verus!
