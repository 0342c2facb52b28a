//! The typed schema of a FAF document, and its mathematical model.

use vstd::prelude::*;
use crate::string_map::{distinct_keys, Entries, StringMap};

verus! {

/// A copy of an optional string.
pub(crate) fn copy_text(text: &Option<String>) -> (r: Option<String>)
    ensures
        r.deep_view() == text.deep_view(),
{
    match text {
        Some(t) => Some(t.clone()),
        None => None,
    }
}

/// A copy of a list of strings.
pub(crate) fn copy_list(list: &Vec<String>) -> (r: Vec<String>)
    ensures
        r.deep_view() == list.deep_view(),
{
    let r = copy_prefix(list, list.len());
    assert(list.deep_view().take(list.len() as int) =~= list.deep_view());
    r
}

/// A copy of the first `n` strings of a list.
pub(crate) fn copy_prefix(list: &Vec<String>, n: usize) -> (r: Vec<String>)
    requires
        n <= list.len(),
    ensures
        r.deep_view() == list.deep_view().take(n as int),
{
    let mut r: Vec<String> = Vec::new();
    let mut i: usize = 0;
    while i < n
        invariant
            i <= n <= list.len(),
            r.len() == i,
            forall|j: int| 0 <= j < i ==> (#[trigger] r@[j])@ == list@[j]@,
        decreases n - i,
    {
        r.push(list[i].clone());
        i += 1;
    }
    assert(r.deep_view() =~= list.deep_view().take(n as int));
    r
}

/// A copy of an optional mapping.
pub(crate) fn copy_map(map: &Option<StringMap>) -> (r: Option<StringMap>)
    ensures
        r.deep_view() == map.deep_view(),
{
    match map {
        Some(m) => Some(m.clone()),
        None => None,
    }
}

/// Project metadata.
#[derive(Debug, PartialEq, Eq)]
pub struct Project {
    pub name: String,
    pub goal: Option<String>,
    pub main_language: Option<String>,
    pub approach: Option<String>,
    pub version: Option<String>,
    pub license: Option<String>,
}

/// Model of [`Project`].
pub struct ProjectView {
    pub name: Seq<char>,
    pub goal: Option<Seq<char>>,
    pub main_language: Option<Seq<char>>,
    pub approach: Option<Seq<char>>,
    pub version: Option<Seq<char>>,
    pub license: Option<Seq<char>>,
}

impl View for Project {
    type V = ProjectView;

    open spec fn view(&self) -> ProjectView {
        ProjectView {
            name: self.name@,
            goal: self.goal.deep_view(),
            main_language: self.main_language.deep_view(),
            approach: self.approach.deep_view(),
            version: self.version.deep_view(),
            license: self.license.deep_view(),
        }
    }
}

impl DeepView for Project {
    type V = ProjectView;

    open spec fn deep_view(&self) -> ProjectView {
        self@
    }
}

impl Clone for Project {
    fn clone(&self) -> (r: Self)
        ensures
            r@ == self@,
    {
        Project {
            name: self.name.clone(),
            goal: copy_text(&self.goal),
            main_language: copy_text(&self.main_language),
            approach: copy_text(&self.approach),
            version: copy_text(&self.version),
            license: copy_text(&self.license),
        }
    }
}

/// Quick context for an AI reader.
#[derive(Debug, PartialEq, Eq)]
pub struct InstantContext {
    pub what_building: Option<String>,
    pub tech_stack: Option<String>,
    pub deployment: Option<String>,
    pub key_files: Vec<String>,
    pub commands: StringMap,
}

/// Model of [`InstantContext`].
pub struct InstantContextView {
    pub what_building: Option<Seq<char>>,
    pub tech_stack: Option<Seq<char>>,
    pub deployment: Option<Seq<char>>,
    pub key_files: Seq<Seq<char>>,
    pub commands: Entries,
}

impl InstantContextView {
    /// Whether no mapping in it holds a key twice.
    pub open spec fn wf(self) -> bool {
        &&& distinct_keys(self.commands)
    }
}

impl View for InstantContext {
    type V = InstantContextView;

    open spec fn view(&self) -> InstantContextView {
        InstantContextView {
            what_building: self.what_building.deep_view(),
            tech_stack: self.tech_stack.deep_view(),
            deployment: self.deployment.deep_view(),
            key_files: self.key_files.deep_view(),
            commands: self.commands@,
        }
    }
}

impl DeepView for InstantContext {
    type V = InstantContextView;

    open spec fn deep_view(&self) -> InstantContextView {
        self@
    }
}

impl Clone for InstantContext {
    fn clone(&self) -> (r: Self)
        ensures
            r@ == self@,
    {
        InstantContext {
            what_building: copy_text(&self.what_building),
            tech_stack: copy_text(&self.tech_stack),
            deployment: copy_text(&self.deployment),
            key_files: copy_list(&self.key_files),
            commands: self.commands.clone(),
        }
    }
}

/// Technical stack.
#[derive(Debug, PartialEq, Eq)]
pub struct Stack {
    pub frontend: Option<String>,
    pub backend: Option<String>,
    pub database: Option<String>,
    pub infrastructure: Option<String>,
    pub build_tool: Option<String>,
    pub testing: Option<String>,
    pub cicd: Option<String>,
}

/// Model of [`Stack`].
pub struct StackView {
    pub frontend: Option<Seq<char>>,
    pub backend: Option<Seq<char>>,
    pub database: Option<Seq<char>>,
    pub infrastructure: Option<Seq<char>>,
    pub build_tool: Option<Seq<char>>,
    pub testing: Option<Seq<char>>,
    pub cicd: Option<Seq<char>>,
}

impl View for Stack {
    type V = StackView;

    open spec fn view(&self) -> StackView {
        StackView {
            frontend: self.frontend.deep_view(),
            backend: self.backend.deep_view(),
            database: self.database.deep_view(),
            infrastructure: self.infrastructure.deep_view(),
            build_tool: self.build_tool.deep_view(),
            testing: self.testing.deep_view(),
            cicd: self.cicd.deep_view(),
        }
    }
}

impl DeepView for Stack {
    type V = StackView;

    open spec fn deep_view(&self) -> StackView {
        self@
    }
}

impl Clone for Stack {
    fn clone(&self) -> (r: Self)
        ensures
            r@ == self@,
    {
        Stack {
            frontend: copy_text(&self.frontend),
            backend: copy_text(&self.backend),
            database: copy_text(&self.database),
            infrastructure: copy_text(&self.infrastructure),
            build_tool: copy_text(&self.build_tool),
            testing: copy_text(&self.testing),
            cicd: copy_text(&self.cicd),
        }
    }
}

/// Context quality metrics.
#[derive(Debug, PartialEq, Eq)]
pub struct ContextQuality {
    pub slots_filled: Option<String>,
    pub confidence: Option<String>,
    pub handoff_ready: bool,
    pub missing_context: Vec<String>,
}

/// Model of [`ContextQuality`].
pub struct ContextQualityView {
    pub slots_filled: Option<Seq<char>>,
    pub confidence: Option<Seq<char>>,
    pub handoff_ready: bool,
    pub missing_context: Seq<Seq<char>>,
}

impl View for ContextQuality {
    type V = ContextQualityView;

    open spec fn view(&self) -> ContextQualityView {
        ContextQualityView {
            slots_filled: self.slots_filled.deep_view(),
            confidence: self.confidence.deep_view(),
            handoff_ready: self.handoff_ready,
            missing_context: self.missing_context.deep_view(),
        }
    }
}

impl DeepView for ContextQuality {
    type V = ContextQualityView;

    open spec fn deep_view(&self) -> ContextQualityView {
        self@
    }
}

impl Clone for ContextQuality {
    fn clone(&self) -> (r: Self)
        ensures
            r@ == self@,
    {
        ContextQuality {
            slots_filled: copy_text(&self.slots_filled),
            confidence: copy_text(&self.confidence),
            handoff_ready: self.handoff_ready,
            missing_context: copy_list(&self.missing_context),
        }
    }
}

/// Human context: who, what, why, how, where and when.
#[derive(Debug, PartialEq, Eq)]
pub struct HumanContext {
    pub who: Option<String>,
    pub what: Option<String>,
    pub why_field: Option<String>,
    pub how: Option<String>,
    pub where_field: Option<String>,
    pub when: Option<String>,
}

/// Model of [`HumanContext`].
pub struct HumanContextView {
    pub who: Option<Seq<char>>,
    pub what: Option<Seq<char>>,
    pub why_field: Option<Seq<char>>,
    pub how: Option<Seq<char>>,
    pub where_field: Option<Seq<char>>,
    pub when: Option<Seq<char>>,
}

impl View for HumanContext {
    type V = HumanContextView;

    open spec fn view(&self) -> HumanContextView {
        HumanContextView {
            who: self.who.deep_view(),
            what: self.what.deep_view(),
            why_field: self.why_field.deep_view(),
            how: self.how.deep_view(),
            where_field: self.where_field.deep_view(),
            when: self.when.deep_view(),
        }
    }
}

impl DeepView for HumanContext {
    type V = HumanContextView;

    open spec fn deep_view(&self) -> HumanContextView {
        self@
    }
}

impl Clone for HumanContext {
    fn clone(&self) -> (r: Self)
        ensures
            r@ == self@,
    {
        HumanContext {
            who: copy_text(&self.who),
            what: copy_text(&self.what),
            why_field: copy_text(&self.why_field),
            how: copy_text(&self.how),
            where_field: copy_text(&self.where_field),
            when: copy_text(&self.when),
        }
    }
}

/// Development preferences.
#[derive(Debug, PartialEq, Eq)]
pub struct Preferences {
    pub quality_bar: Option<String>,
    pub testing: Option<String>,
    pub documentation: Option<String>,
    pub code_style: Option<String>,
}

/// Model of [`Preferences`].
pub struct PreferencesView {
    pub quality_bar: Option<Seq<char>>,
    pub testing: Option<Seq<char>>,
    pub documentation: Option<Seq<char>>,
    pub code_style: Option<Seq<char>>,
}

impl View for Preferences {
    type V = PreferencesView;

    open spec fn view(&self) -> PreferencesView {
        PreferencesView {
            quality_bar: self.quality_bar.deep_view(),
            testing: self.testing.deep_view(),
            documentation: self.documentation.deep_view(),
            code_style: self.code_style.deep_view(),
        }
    }
}

impl DeepView for Preferences {
    type V = PreferencesView;

    open spec fn deep_view(&self) -> PreferencesView {
        self@
    }
}

impl Clone for Preferences {
    fn clone(&self) -> (r: Self)
        ensures
            r@ == self@,
    {
        Preferences {
            quality_bar: copy_text(&self.quality_bar),
            testing: copy_text(&self.testing),
            documentation: copy_text(&self.documentation),
            code_style: copy_text(&self.code_style),
        }
    }
}

/// Project state.
#[derive(Debug, PartialEq, Eq)]
pub struct State {
    pub phase: Option<String>,
    pub version: Option<String>,
    pub focus: Option<String>,
    pub milestones: Vec<String>,
}

/// Model of [`State`].
pub struct StateView {
    pub phase: Option<Seq<char>>,
    pub version: Option<Seq<char>>,
    pub focus: Option<Seq<char>>,
    pub milestones: Seq<Seq<char>>,
}

impl View for State {
    type V = StateView;

    open spec fn view(&self) -> StateView {
        StateView {
            phase: self.phase.deep_view(),
            version: self.version.deep_view(),
            focus: self.focus.deep_view(),
            milestones: self.milestones.deep_view(),
        }
    }
}

impl DeepView for State {
    type V = StateView;

    open spec fn deep_view(&self) -> StateView {
        self@
    }
}

impl Clone for State {
    fn clone(&self) -> (r: Self)
        ensures
            r@ == self@,
    {
        State {
            phase: copy_text(&self.phase),
            version: copy_text(&self.version),
            focus: copy_text(&self.focus),
            milestones: copy_list(&self.milestones),
        }
    }
}

/// A complete FAF document.
#[derive(Debug, PartialEq, Eq)]
pub struct FafData {
    pub faf_version: String,
    pub project: Project,
    pub ai_score: Option<String>,
    pub ai_confidence: Option<String>,
    pub ai_tldr: Option<StringMap>,
    pub instant_context: Option<InstantContext>,
    pub context_quality: Option<ContextQuality>,
    pub stack: Option<Stack>,
    pub human_context: Option<HumanContext>,
    pub preferences: Option<Preferences>,
    pub state: Option<State>,
    pub tags: Vec<String>,
}

/// Model of [`FafData`].
pub struct FafDataView {
    pub faf_version: Seq<char>,
    pub project: ProjectView,
    pub ai_score: Option<Seq<char>>,
    pub ai_confidence: Option<Seq<char>>,
    pub ai_tldr: Option<Entries>,
    pub instant_context: Option<InstantContextView>,
    pub context_quality: Option<ContextQualityView>,
    pub stack: Option<StackView>,
    pub human_context: Option<HumanContextView>,
    pub preferences: Option<PreferencesView>,
    pub state: Option<StateView>,
    pub tags: Seq<Seq<char>>,
}

impl FafDataView {
    /// Whether no mapping in it holds a key twice.
    pub open spec fn wf(self) -> bool {
        &&& (self.ai_tldr matches Some(m) ==> distinct_keys(m))
        &&& (self.instant_context matches Some(x) ==> x.wf())
    }
}

impl FafData {
    /// Tells the verifier that the document holds no key twice in any of its
    /// mappings, which holds of every document. Does nothing when run.
    pub(crate) fn confirm_wf(&self)
        ensures
            self@.wf(),
    {
        match &self.ai_tldr {
            Some(m) => {
                let _ = m.len();
            },
            None => {},
        }
        match &self.instant_context {
            Some(ic) => {
                let _ = ic.commands.len();
            },
            None => {},
        }
    }
}

impl View for FafData {
    type V = FafDataView;

    open spec fn view(&self) -> FafDataView {
        FafDataView {
            faf_version: self.faf_version@,
            project: self.project@,
            ai_score: self.ai_score.deep_view(),
            ai_confidence: self.ai_confidence.deep_view(),
            ai_tldr: self.ai_tldr.deep_view(),
            instant_context: self.instant_context.deep_view(),
            context_quality: self.context_quality.deep_view(),
            stack: self.stack.deep_view(),
            human_context: self.human_context.deep_view(),
            preferences: self.preferences.deep_view(),
            state: self.state.deep_view(),
            tags: self.tags.deep_view(),
        }
    }
}

impl DeepView for FafData {
    type V = FafDataView;

    open spec fn deep_view(&self) -> FafDataView {
        self@
    }
}

impl Clone for FafData {
    fn clone(&self) -> (r: Self)
        ensures
            r@ == self@,
    {
        FafData {
            faf_version: self.faf_version.clone(),
            project: self.project.clone(),
            ai_score: copy_text(&self.ai_score),
            ai_confidence: copy_text(&self.ai_confidence),
            ai_tldr: copy_map(&self.ai_tldr),
            instant_context: match &self.instant_context {
                Some(x) => Some(x.clone()),
                None => None,
            },
            context_quality: match &self.context_quality {
                Some(x) => Some(x.clone()),
                None => None,
            },
            stack: match &self.stack {
                Some(x) => Some(x.clone()),
                None => None,
            },
            human_context: match &self.human_context {
                Some(x) => Some(x.clone()),
                None => None,
            },
            preferences: match &self.preferences {
                Some(x) => Some(x.clone()),
                None => None,
            },
            state: match &self.state {
                Some(x) => Some(x.clone()),
                None => None,
            },
            tags: copy_list(&self.tags),
        }
    }
}

} // verus!
