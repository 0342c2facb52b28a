//! Finding the FAF file of a project: the rules of the walk from a directory
//! up through its ancestors.
//!
//! The walk itself touches the file system, which this library does not. It
//! is told what each directory holds and decides: [`next_step`] for a caller
//! that looks at one directory at a time, [`find_faf_file`] for one that has
//! the listing of the directories at hand.

use vstd::prelude::*;
use vstd::string::StringExecFns;
use crate::decode::outcome;
use crate::parser::{
    outcome_of_read, parse_file, parse_file_spec, FafError, FafErrorView, FafFile, FafFileView,
};

verus! {

/// How many times the walk goes up to a parent directory, at most.
pub const MAX_DEPTH: usize = 10;

/// The file names that mark a FAF file.
#[derive(Debug, Clone, Copy, PartialEq, Eq)]
pub enum FafName {
    /// `project.faf`, the preferred name.
    Modern,
    /// `.faf`, the older name.
    Legacy,
}

impl FafName {
    /// The file name.
    pub open spec fn text(self) -> Seq<char> {
        match self {
            FafName::Modern => "project.faf"@,
            FafName::Legacy => ".faf"@,
        }
    }

    /// The file name.
    pub fn file_name(&self) -> (name: &'static str)
        ensures
            name@ == self.text(),
    {
        match self {
            FafName::Modern => "project.faf",
            FafName::Legacy => ".faf",
        }
    }
}

/// Which FAF files a directory holds.
#[derive(Debug, Clone, Copy, PartialEq, Eq)]
pub struct DirListing {
    /// Whether it holds a file named `project.faf`.
    pub has_project_faf: bool,
    /// Whether it holds a file named `.faf`.
    pub has_dot_faf: bool,
}

/// The file that a directory offers: `project.faf` before `.faf`.
pub open spec fn offered(dir: DirListing) -> Option<FafName> {
    if dir.has_project_faf {
        Some(FafName::Modern)
    } else if dir.has_dot_faf {
        Some(FafName::Legacy)
    } else {
        None
    }
}

/// What the walk does after it has looked at a directory.
#[derive(Debug, Clone, Copy, PartialEq, Eq)]
pub enum Step {
    /// The directory holds this file: the walk ends with it.
    Found(FafName),
    /// Go on with the parent directory.
    Ascend,
    /// Nothing was found: the walk ends.
    Stop,
}

/// What the walk does at a directory that it reached by going up `depth`
/// times: it takes the file that the directory offers; else goes up, unless
/// it has gone up `MAX_DEPTH` times already or there is no parent.
pub open spec fn step_at(depth: nat, dir: DirListing, has_parent: bool) -> Step {
    match offered(dir) {
        Some(name) => Step::Found(name),
        None => if depth < MAX_DEPTH && has_parent {
            Step::Ascend
        } else {
            Step::Stop
        },
    }
}

/// What the walk does after it has looked at the directory that it reached by
/// going up `depth` times.
pub fn next_step(depth: usize, dir: DirListing, has_parent: bool) -> (step: Step)
    ensures
        step == step_at(depth as nat, dir, has_parent),
{
    if dir.has_project_faf {
        Step::Found(FafName::Modern)
    } else if dir.has_dot_faf {
        Step::Found(FafName::Legacy)
    } else if depth < MAX_DEPTH && has_parent {
        Step::Ascend
    } else {
        Step::Stop
    }
}

/// A FAF file that the walk found.
#[derive(Debug, Clone, Copy, PartialEq, Eq)]
pub struct Located {
    /// How many times the walk went up from the start directory.
    pub level: usize,
    /// The name of the file.
    pub name: FafName,
}

/// Whether `level` is within the walk's reach and its directory offers a
/// file.
pub open spec fn is_hit(dirs: Seq<DirListing>, level: int) -> bool {
    0 <= level < dirs.len() && level <= MAX_DEPTH && offered(dirs[level]) is Some
}

/// What the walk finds in `dirs`, the start directory first and then its
/// ancestors: the file offered by the nearest directory that offers one,
/// among the start directory and its first `MAX_DEPTH` ancestors.
pub open spec fn found_in(dirs: Seq<DirListing>) -> Option<Located> {
    if exists|level: int| is_hit(dirs, level) {
        let nearest = choose|level: int|
            is_hit(dirs, level) && forall|other: int| is_hit(dirs, other) ==> level <= other;
        Some(Located { level: nearest as usize, name: offered(dirs[nearest])->0 })
    } else {
        None
    }
}

/// Among the levels that hit there is a nearest one.
proof fn lemma_nearest_hit(dirs: Seq<DirListing>, level: int)
    requires
        is_hit(dirs, level),
    ensures
        exists|nearest: int|
            is_hit(dirs, nearest) && forall|other: int| is_hit(dirs, other) ==> nearest <= other,
    decreases level,
{
    if exists|below: int| below < level && is_hit(dirs, below) {
        let below = choose|below: int| below < level && is_hit(dirs, below);
        lemma_nearest_hit(dirs, below);
    } else {
        assert(is_hit(dirs, level) && forall|other: int| is_hit(dirs, other) ==> level <= other);
    }
}

/// A level that hits, with none nearer, is what the walk finds.
pub proof fn lemma_found_at(dirs: Seq<DirListing>, level: int)
    requires
        is_hit(dirs, level),
        forall|other: int| 0 <= other < level ==> offered(#[trigger] dirs[other]) is None,
    ensures
        found_in(dirs) == Some(Located { level: level as usize, name: offered(dirs[level])->0 }),
{
    lemma_nearest_hit(dirs, level);
    let nearest = choose|nearest: int|
        is_hit(dirs, nearest) && forall|other: int| is_hit(dirs, other) ==> nearest <= other;
    assert(nearest <= level);
    if nearest < level {
        assert(offered(dirs[nearest]) is None);
    }
}

/// A file named `project.faf` in the start directory is found whatever else
/// there is; a `.faf` there is found when no `project.faf` stands beside it.
pub proof fn lemma_start_directory_wins(dirs: Seq<DirListing>)
    requires
        dirs.len() > 0,
    ensures
        dirs[0].has_project_faf ==> found_in(dirs) == Some(
            Located { level: 0, name: FafName::Modern },
        ),
        !dirs[0].has_project_faf && dirs[0].has_dot_faf ==> found_in(dirs) == Some(
            Located { level: 0, name: FafName::Legacy },
        ),
{
    if offered(dirs[0]) is Some {
        lemma_found_at(dirs, 0);
    }
}

/// Nothing is found where no directory within reach offers a file, however
/// many files stand farther up.
pub proof fn lemma_out_of_reach(dirs: Seq<DirListing>)
    requires
        forall|level: int|
            0 <= level < dirs.len() && level <= MAX_DEPTH ==> offered(#[trigger] dirs[level])
                is None,
    ensures
        found_in(dirs) is None,
{
}

/// Finds the FAF file in `dirs`: the listing of the start directory, then
/// those of its ancestors, nearest first, as far as they exist. The start
/// directory and its first `MAX_DEPTH` ancestors are looked at.
pub fn find_faf_file(dirs: &Vec<DirListing>) -> (r: Option<Located>)
    ensures
        r == found_in(dirs@),
{
    if dirs.len() == 0 {
        return None;
    }
    let mut depth: usize = 0;
    loop
        invariant
            depth < dirs.len(),
            depth <= MAX_DEPTH,
            forall|other: int| 0 <= other < depth ==> offered(#[trigger] dirs@[other]) is None,
        decreases dirs.len() - depth,
    {
        let has_parent = depth + 1 < dirs.len();
        match next_step(depth, dirs[depth], has_parent) {
            Step::Found(name) => {
                proof {
                    lemma_found_at(dirs@, depth as int);
                }
                return Some(Located { level: depth, name });
            },
            Step::Ascend => {
                depth += 1;
            },
            Step::Stop => {
                return None;
            },
        }
    }
}

/// Why finding and parsing a FAF file failed.
#[derive(Debug, PartialEq, Eq)]
pub enum FindError {
    /// No FAF file was found.
    NotFound,
    /// A FAF file was found and could not be parsed.
    ParseError(FafError),
}

/// Model of [`FindError`].
pub enum FindErrorView {
    NotFound,
    ParseError(FafErrorView),
}

impl FindErrorView {
    /// The text that describes the error to a reader.
    pub open spec fn message(self) -> Seq<char> {
        match self {
            FindErrorView::NotFound => "No FAF file found in directory tree"@,
            FindErrorView::ParseError(e) => "Parse error: "@ + e.message(),
        }
    }
}

impl View for FindError {
    type V = FindErrorView;

    open spec fn view(&self) -> FindErrorView {
        match self {
            FindError::NotFound => FindErrorView::NotFound,
            FindError::ParseError(e) => FindErrorView::ParseError(e@),
        }
    }
}

impl FindError {
    /// The text that describes the error to a reader.
    pub fn message(&self) -> (text: String)
        ensures
            text@ == self@.message(),
    {
        match self {
            FindError::NotFound => String::from_str("No FAF file found in directory tree"),
            FindError::ParseError(e) => {
                let cause = e.message();
                String::from_str("Parse error: ").concat(cause.as_str())
            },
        }
    }
}

/// A file that the search came upon, with what reading it gave.
#[derive(Debug, PartialEq, Eq)]
pub struct FoundFile {
    /// The path of the file.
    pub path: String,
    /// The text of the file, or the message of the failure to read it.
    pub content: Result<String, String>,
}

/// What finding and parsing gives: not found where the search came upon no
/// file, else what parsing the file gives.
pub open spec fn find_and_parse_spec(
    found: Option<(Seq<char>, Result<Seq<char>, Seq<char>>)>,
) -> Result<FafFileView, FindErrorView> {
    match found {
        None => Err(FindErrorView::NotFound),
        Some((path, content)) => match parse_file_spec(path, content) {
            Ok(file) => Ok(file),
            Err(e) => Err(FindErrorView::ParseError(e)),
        },
    }
}

/// The file that the search came upon, by its model.
pub open spec fn found_model(found: Option<FoundFile>) -> Option<
    (Seq<char>, Result<Seq<char>, Seq<char>>),
> {
    match found {
        None => None,
        Some(file) => Some((file.path@, outcome_of_read(file.content))),
    }
}

/// Parses the file that a search came upon; `None` stands for a search that
/// found nothing.
pub fn find_and_parse(found: Option<FoundFile>) -> (r: Result<FafFile, FindError>)
    ensures
        match r {
            Ok(file) => find_and_parse_spec(found_model(found)) == Ok::<
                FafFileView,
                FindErrorView,
            >(file@),
            Err(e) => find_and_parse_spec(found_model(found)) == Err::<
                FafFileView,
                FindErrorView,
            >(e@),
        },
{
    let file = match found {
        Some(file) => file,
        None => {
            return Err(FindError::NotFound);
        },
    };
    match parse_file(file.path.as_str(), file.content) {
        Ok(faf) => Ok(faf),
        Err(e) => Err(FindError::ParseError(e)),
    }
}

} // verus!
