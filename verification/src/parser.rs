//! Parsed FAF files and their accessors.

use vstd::prelude::*;
use vstd::string::StringExecFns;
use crate::decode::{decode_document, document_of, outcome};
use crate::encode::{document_value, encode_document};
use crate::round_trip::{lemma_document_emittable, lemma_document_round_trip};
use crate::text::{
    all_digits, chars_of, decimal_value, digit_value, is_blank, is_digit,
    lemma_blank_trims_to_nothing, lemma_decimal_value_grows, trim, trimmed,
};
use crate::types::{copy_text, FafData, FafDataView};
use crate::yaml::{lookup, Pairs, YamlValue};
use crate::yaml_text::{read_yaml, write_yaml, yaml_document, yaml_rendering};

verus! {

/// Why a FAF document could not be read or written.
#[derive(Debug, PartialEq, Eq)]
pub enum FafError {
    /// The content is empty, or whitespace alone.
    EmptyContent,
    /// The content is no well-formed YAML, or a value has the wrong type.
    /// Holds the diagnostic.
    YamlError(String),
    /// The file could not be read. Holds the diagnostic.
    IoError(String),
    /// A required field is absent. Holds the field's path.
    MissingField(String),
}

/// Model of [`FafError`].
pub enum FafErrorView {
    EmptyContent,
    YamlError(Seq<char>),
    IoError(Seq<char>),
    MissingField(Seq<char>),
}

impl FafErrorView {
    /// The text that describes the error to a reader.
    pub open spec fn message(self) -> Seq<char> {
        match self {
            FafErrorView::EmptyContent => "Empty content"@,
            FafErrorView::YamlError(cause) => "Invalid YAML: "@ + cause,
            FafErrorView::IoError(cause) => "IO error: "@ + cause,
            FafErrorView::MissingField(field) => "Missing required field: "@ + field,
        }
    }
}

impl View for FafError {
    type V = FafErrorView;

    open spec fn view(&self) -> FafErrorView {
        match self {
            FafError::EmptyContent => FafErrorView::EmptyContent,
            FafError::YamlError(cause) => FafErrorView::YamlError(cause@),
            FafError::IoError(cause) => FafErrorView::IoError(cause@),
            FafError::MissingField(field) => FafErrorView::MissingField(field@),
        }
    }
}

impl DeepView for FafError {
    type V = FafErrorView;

    open spec fn deep_view(&self) -> FafErrorView {
        self@
    }
}

impl FafError {
    /// The text that describes the error to a reader.
    pub fn message(&self) -> (text: String)
        ensures
            text@ == self@.message(),
    {
        match self {
            FafError::EmptyContent => String::from_str("Empty content"),
            FafError::YamlError(cause) => String::from_str("Invalid YAML: ").concat(cause.as_str()),
            FafError::IoError(cause) => String::from_str("IO error: ").concat(cause.as_str()),
            FafError::MissingField(field) => String::from_str("Missing required field: ").concat(
                field.as_str(),
            ),
        }
    }
}

/// `s` without the percent signs at its end.
pub open spec fn without_percent(s: Seq<char>) -> Seq<char>
    decreases s.len(),
{
    if s.len() > 0 && s.last() == '%' {
        without_percent(s.drop_last())
    } else {
        s
    }
}

/// The number in 0..=255 that `s` denotes: decimal digits, with or without a
/// plus sign in front. Anything else denotes none.
pub open spec fn parse_u8(s: Seq<char>) -> Option<u8> {
    let digits = if s.len() > 0 && s[0] == '+' {
        s.drop_first()
    } else {
        s
    };
    if digits.len() > 0 && all_digits(digits) && decimal_value(digits) <= 255 {
        Some(decimal_value(digits) as u8)
    } else {
        None
    }
}

/// The score that a raw `ai_score` stands for.
pub open spec fn score_of(ai_score: Option<Seq<char>>) -> Option<u8> {
    match ai_score {
        Some(s) => parse_u8(without_percent(s)),
        None => None,
    }
}

/// Cutting a run of percent signs from the end, up to a character that is
/// none or to the start, cuts them all.
proof fn lemma_without_percent(s: Seq<char>, end: int)
    requires
        0 <= end <= s.len(),
        forall|i: int| end <= i < s.len() ==> #[trigger] s[i] == '%',
        end > 0 ==> s[end - 1] != '%',
    ensures
        without_percent(s) == s.take(end),
    decreases s.len() - end,
{
    if end == s.len() {
        assert(s.take(end) =~= s);
    } else {
        let rest = s.drop_last();
        assert forall|i: int| end <= i < rest.len() implies #[trigger] rest[i] == '%' by {
            assert(rest[i] == s[i]);
        }
        lemma_without_percent(rest, end);
        assert(rest.take(end) =~= s.take(end));
    }
}

/// Reads a number in 0..=255 from `chars[start..end]`.
fn parse_digits(chars: &Vec<char>, start: usize, end: usize) -> (r: Option<u8>)
    requires
        start <= end <= chars.len(),
    ensures
        r == (if start < end && all_digits(chars@.subrange(start as int, end as int))
            && decimal_value(chars@.subrange(start as int, end as int)) <= 255 {
            Some(decimal_value(chars@.subrange(start as int, end as int)) as u8)
        } else {
            None
        }),
{
    let ghost digits = chars@.subrange(start as int, end as int);
    if start == end {
        return None;
    }
    let mut value: u16 = 0;
    let mut i: usize = start;
    while i < end
        invariant
            start <= i <= end <= chars.len(),
            digits == chars@.subrange(start as int, end as int),
            all_digits(digits.take(i - start)),
            value == decimal_value(digits.take(i - start)),
            value <= 255,
        decreases end - i,
    {
        let c = chars[i];
        let ghost prefix = digits.take(i - start + 1);
        proof {
            assert(digits[i - start] == c);
            assert(prefix.drop_last() =~= digits.take(i - start));
            assert(prefix.last() == c);
        }
        if !('0' <= c && c <= '9') {
            assert(!all_digits(digits));
            return None;
        }
        let d: u16 = (c as u32 - '0' as u32) as u16;
        assert(d == digit_value(c));
        value = value * 10 + d;
        assert(value == decimal_value(prefix));
        if value > 255 {
            proof {
                lemma_decimal_value_grows(digits, i - start + 1);
            }
            return None;
        }
        assert(all_digits(prefix)) by {
            assert forall|j: int| 0 <= j < prefix.len() implies is_digit(
                #[trigger] prefix[j],
            ) by {
                if j < i - start {
                    assert(prefix[j] == digits.take(i - start)[j]);
                }
            }
        }
        i += 1;
    }
    assert(digits.take(end - start) =~= digits);
    Some(value as u8)
}

/// The number in 0..=255 that `text` denotes once the percent signs at its
/// end are gone, if it denotes one.
pub fn parse_score(text: &str) -> (r: Option<u8>)
    ensures
        r == parse_u8(without_percent(text@)),
{
    let chars = chars_of(text);
    let mut end: usize = chars.len();
    while end > 0 && chars[end - 1] == '%'
        invariant
            end <= chars.len(),
            forall|i: int| end <= i < chars.len() ==> #[trigger] chars@[i] == '%',
        decreases end,
    {
        end -= 1;
    }
    proof {
        lemma_without_percent(chars@, end as int);
    }
    let ghost body = chars@.take(end as int);
    let start: usize = if end > 0 && chars[0] == '+' {
        1
    } else {
        0
    };
    proof {
        if start == 1 {
            assert(body.drop_first() =~= chars@.subrange(1, end as int));
        } else {
            assert(body =~= chars@.subrange(0, end as int));
        }
    }
    parse_digits(&chars, start, end)
}

/// A parsed FAF document, with the path of the file it was read from.
#[derive(Debug, PartialEq, Eq)]
pub struct FafFile {
    /// The typed document.
    pub data: FafData,
    /// The file that the document was read from, if it was read from one.
    pub path: Option<String>,
}

/// Model of [`FafFile`].
pub struct FafFileView {
    pub data: FafDataView,
    pub path: Option<Seq<char>>,
}

impl View for FafFile {
    type V = FafFileView;

    open spec fn view(&self) -> FafFileView {
        FafFileView { data: self.data@, path: self.path.deep_view() }
    }
}

impl DeepView for FafFile {
    type V = FafFileView;

    open spec fn deep_view(&self) -> FafFileView {
        self@
    }
}

impl Clone for FafFile {
    fn clone(&self) -> (r: Self)
        ensures
            r@ == self@,
    {
        FafFile { data: self.data.clone(), path: copy_text(&self.path) }
    }
}

impl FafFileView {
    /// The score that the document's `ai_score` stands for.
    pub open spec fn score(self) -> Option<u8> {
        score_of(self.data.ai_score)
    }

    /// The `tech_stack` of the instant context.
    pub open spec fn tech_stack(self) -> Option<Seq<char>> {
        match self.data.instant_context {
            Some(ic) => ic.tech_stack,
            None => None,
        }
    }

    /// The `what_building` of the instant context.
    pub open spec fn what_building(self) -> Option<Seq<char>> {
        match self.data.instant_context {
            Some(ic) => ic.what_building,
            None => None,
        }
    }

    /// The `key_files` of the instant context; none where it is absent.
    pub open spec fn key_files(self) -> Seq<Seq<char>> {
        match self.data.instant_context {
            Some(ic) => ic.key_files,
            None => Seq::empty(),
        }
    }
}

impl FafFile {
    /// The project's name.
    pub fn project_name(&self) -> (r: &str)
        ensures
            r@ == self@.data.project.name,
    {
        self.data.project.name.as_str()
    }

    /// The AI score as a number: the raw `ai_score` without the percent signs
    /// at its end, read as an integer in 0..=255. `None` where there is no
    /// `ai_score` or where it denotes no such number.
    pub fn score(&self) -> (r: Option<u8>)
        ensures
            r == self@.score(),
    {
        match &self.data.ai_score {
            Some(s) => parse_score(s.as_str()),
            None => None,
        }
    }

    /// The FAF version.
    pub fn version(&self) -> (r: &str)
        ensures
            r@ == self@.data.faf_version,
    {
        self.data.faf_version.as_str()
    }

    /// The tech stack; `None` where the instant context or the field is
    /// absent.
    pub fn tech_stack(&self) -> (r: Option<&str>)
        ensures
            r.deep_view() == self@.tech_stack(),
    {
        match &self.data.instant_context {
            Some(ic) => match &ic.tech_stack {
                Some(s) => Some(s.as_str()),
                None => None,
            },
            None => None,
        }
    }

    /// What is being built; `None` where the instant context or the field is
    /// absent.
    pub fn what_building(&self) -> (r: Option<&str>)
        ensures
            r.deep_view() == self@.what_building(),
    {
        match &self.data.instant_context {
            Some(ic) => match &ic.what_building {
                Some(s) => Some(s.as_str()),
                None => None,
            },
            None => None,
        }
    }

    /// The key files; empty where the instant context is absent.
    pub fn key_files(&self) -> (r: &[String])
        ensures
            r.deep_view() == self@.key_files(),
    {
        match &self.data.instant_context {
            Some(ic) => ic.key_files.as_slice(),
            None => {
                let r: &[String] = &[];
                assert(r.deep_view() =~= Seq::<Seq<char>>::empty());
                r
            },
        }
    }

    /// The project's goal.
    pub fn goal(&self) -> (r: Option<&str>)
        ensures
            r.deep_view() == self@.data.project.goal,
    {
        match &self.data.project.goal {
            Some(s) => Some(s.as_str()),
            None => None,
        }
    }

    /// Whether the score is present and at least 70.
    pub fn is_high_quality(&self) -> (r: bool)
        ensures
            r == (self@.score() matches Some(s) && s >= 70),
    {
        match self.score() {
            Some(s) => s >= 70,
            None => false,
        }
    }
}

/// What parsing a text gives. Text that trims to nothing is empty content.
/// Otherwise the trimmed text is read as YAML: a text that is no YAML gives
/// the reader's message, and the value of one that is YAML is read as a
/// document. The path stays unset.
pub open spec fn parse_spec(content: Seq<char>) -> Result<FafFileView, FafErrorView> {
    let text = trimmed(content);
    if text.len() == 0 {
        Err(FafErrorView::EmptyContent)
    } else {
        match yaml_document(text) {
            Err(message) => Err(FafErrorView::YamlError(message)),
            Ok(tree) => match document_of(tree) {
                Ok(data) => Ok(FafFileView { data, path: None }),
                Err(e) => Err(e),
            },
        }
    }
}

/// What parsing the outcome of reading a file gives: a failed read is an I/O
/// error with its message, and a text is parsed, with the path recorded
/// beside the document.
pub open spec fn parse_file_spec(
    path: Seq<char>,
    content: Result<Seq<char>, Seq<char>>,
) -> Result<FafFileView, FafErrorView> {
    match content {
        Err(message) => Err(FafErrorView::IoError(message)),
        Ok(text) => match parse_spec(text) {
            Ok(file) => Ok(FafFileView { data: file.data, path: Some(path) }),
            Err(e) => Err(e),
        },
    }
}

/// What writing a document gives: the YAML text of its tree, or the
/// writer's message.
pub open spec fn stringify_spec(file: FafFileView) -> Result<Seq<char>, FafErrorView> {
    match yaml_rendering(document_value(file.data)) {
        Ok(text) => Ok(text),
        Err(message) => Err(FafErrorView::YamlError(message)),
    }
}

/// Parses the text of a FAF document.
pub fn parse(content: &str) -> (r: Result<FafFile, FafError>)
    ensures
        outcome(r) == parse_spec(content@),
{
    let text = trim(content);
    if text.is_empty() {
        return Err(FafError::EmptyContent);
    }
    match read_yaml(text) {
        Err(message) => Err(FafError::YamlError(message)),
        Ok(tree) => match decode_document(&tree) {
            Ok(data) => Ok(FafFile { data, path: None }),
            Err(e) => Err(e),
        },
    }
}

/// Parses what reading the file at `path` gave: the text of the file, or the
/// message of the failure to read it. The path is recorded beside the
/// document.
pub fn parse_file(path: &str, content: Result<String, String>) -> (r: Result<FafFile, FafError>)
    ensures
        outcome(r) == parse_file_spec(path@, outcome_of_read(content)),
{
    let text = match content {
        Ok(text) => text,
        Err(message) => {
            return Err(FafError::IoError(message));
        },
    };
    let mut faf = parse(text.as_str())?;
    faf.path = Some(String::from_str(path));
    Ok(faf)
}

/// What reading a file gave, by its model.
pub open spec fn outcome_of_read(content: Result<String, String>) -> Result<
    Seq<char>,
    Seq<char>,
> {
    match content {
        Ok(text) => Ok(text@),
        Err(message) => Err(message@),
    }
}

/// Writes a document as YAML text. Fields that are absent and lists and
/// mappings that are empty are left out.
pub fn stringify(faf: &FafFile) -> (r: Result<String, FafError>)
    ensures
        outcome(r) == stringify_spec(faf@),
{
    let tree = encode_document(&faf.data);
    faf.data.confirm_wf();
    proof {
        lemma_document_emittable(faf.data@);
    }
    match write_yaml(&tree) {
        Ok(text) => Ok(text),
        Err(message) => Err(FafError::YamlError(message)),
    }
}

/// Content made of whitespace alone, or of nothing, is refused as empty.
pub proof fn lemma_blank_content_is_empty(content: Seq<char>)
    requires
        is_blank(content),
    ensures
        parse_spec(content) == Err::<FafFileView, FafErrorView>(FafErrorView::EmptyContent),
{
    lemma_blank_trims_to_nothing(content);
}

/// Parsing never succeeds on content whose YAML value is null, as that of a
/// text of comments alone is: the version is reported missing.
pub proof fn lemma_null_document_is_refused(content: Seq<char>)
    ensures
        yaml_document(trimmed(content)) == Ok::<YamlValue, Seq<char>>(YamlValue::Null)
            ==> parse_spec(content) is Err,
        document_of(YamlValue::Null) == Err::<FafDataView, FafErrorView>(
            FafErrorView::MissingField("faf_version"@),
        ),
{
    assert(YamlValue::Null.untagged() == YamlValue::Null);
    assert(lookup(Pairs::empty(), "faf_version"@) is None);
}

/// Parsing the text of a written document gives the document back, without
/// a path, wherever the YAML reader reads the text as the tree that was
/// written.
pub proof fn lemma_parse_inverts_stringify(file: FafFileView, text: Seq<char>)
    requires
        file.data.wf(),
    ensures
        (stringify_spec(file) == Ok::<Seq<char>, FafErrorView>(text) && trimmed(text).len() > 0
            && yaml_document(trimmed(text)) == Ok::<YamlValue, Seq<char>>(
            document_value(file.data),
        )) ==> parse_spec(text) == Ok::<FafFileView, FafErrorView>(
            FafFileView { data: file.data, path: None },
        ),
{
    lemma_document_round_trip(file.data);
}

/// A percent sign more at the end changes no score.
pub proof fn lemma_score_ignores_percent_signs(raw: Seq<char>)
    ensures
        score_of(Some(raw.push('%'))) == score_of(Some(raw)),
{
    assert(raw.push('%').drop_last() =~= raw);
}

} // verus!
