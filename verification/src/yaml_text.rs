//! Reading and writing YAML text with `serde_yaml`.
//!
//! The text is read into a `serde_yaml::Value`, which is then taken apart
//! level by level into a [`YamlNode`]; a node is written by building a
//! `serde_yaml::Value` level by level and rendering it. What `serde_yaml`
//! does is not proved here: it is named, and the contracts of this module
//! say how the results of this library follow from it.

use vstd::prelude::*;
use vstd::pervasive::unreached;
use crate::yaml::{
    lemma_emittable_entry, lemma_emittable_item, nodes_model, pairs_model, YamlNode, YamlValue,
};

verus! {

#[verifier::external_type_specification]
#[verifier::external_body]
pub struct ExValue(serde_yaml::Value);

#[verifier::external_type_specification]
#[verifier::external_body]
pub struct ExError(serde_yaml::Error);

/// The YAML value that a `serde_yaml::Value` holds. A number stands in it by
/// the text that `serde_yaml` displays it with, a tag likewise.
pub uninterp spec fn value_contents(v: serde_yaml::Value) -> YamlValue;

/// The message that a `serde_yaml::Error` displays.
pub uninterp spec fn error_text(e: serde_yaml::Error) -> Seq<char>;

/// What `serde_yaml::from_str` makes of a text: the value of its one
/// document, or the message of the error.
pub uninterp spec fn yaml_document(text: Seq<char>) -> Result<YamlValue, Seq<char>>;

/// What `serde_yaml::to_string` makes of a value: its text, or the message
/// of the error.
pub uninterp spec fn yaml_rendering(doc: YamlValue) -> Result<Seq<char>, Seq<char>>;

/// One level of a `serde_yaml::Value`: its variant, with the children still
/// in the outside type.
pub enum Layer<'a> {
    Null,
    Bool(bool),
    Number(String),
    Text(String),
    Sequence(&'a Vec<serde_yaml::Value>),
    Mapping(Vec<(&'a serde_yaml::Value, &'a serde_yaml::Value)>),
    Tagged(String, &'a serde_yaml::Value),
}

impl<'a> Layer<'a> {
    /// The value that the level and its children stand for.
    pub open spec fn model(self) -> YamlValue {
        match self {
            Layer::Null => YamlValue::Null,
            Layer::Bool(b) => YamlValue::Bool(b),
            Layer::Number(t) => YamlValue::Number(t@),
            Layer::Text(t) => YamlValue::Text(t@),
            Layer::Sequence(items) => YamlValue::Sequence(
                Seq::new(items@.len(), |i: int| value_contents(items@[i])),
            ),
            Layer::Mapping(entries) => YamlValue::Mapping(
                Seq::new(
                    entries@.len(),
                    |i: int| (value_contents(*entries@[i].0), value_contents(*entries@[i].1)),
                ),
            ),
            Layer::Tagged(tag, inner) => YamlValue::Tagged(tag@, Box::new(value_contents(*inner))),
        }
    }
}

/// The values that a list of outside values holds.
pub open spec fn contents_of(items: Seq<serde_yaml::Value>) -> Seq<YamlValue> {
    Seq::new(items.len(), |i: int| value_contents(items[i]))
}

/// The entries that a list of pairs of outside values holds.
pub open spec fn paired_contents_of(entries: Seq<(serde_yaml::Value, serde_yaml::Value)>) -> Seq<
    (YamlValue, YamlValue),
> {
    Seq::new(entries.len(), |i: int| (value_contents(entries[i].0), value_contents(entries[i].1)))
}

/// Calls `serde_yaml::from_str` for a `serde_yaml::Value`. Claimed: the
/// result is what [`yaml_document`] names for the text, the value by its
/// contents and the error by its message.
#[verifier::external_body]
fn load(text: &str) -> (r: Result<serde_yaml::Value, serde_yaml::Error>)
    ensures
        match r {
            Ok(v) => yaml_document(text@) == Ok::<YamlValue, Seq<char>>(value_contents(v)),
            Err(e) => yaml_document(text@) == Err::<YamlValue, Seq<char>>(error_text(e)),
        },
{
    serde_yaml::from_str::<serde_yaml::Value>(text)
}

/// Calls `serde_yaml::to_string` on a `serde_yaml::Value`. Claimed, for a
/// value made of strings, booleans, sequences and mappings: the result is
/// what [`yaml_rendering`] names for its contents.
#[verifier::external_body]
fn render(v: &serde_yaml::Value) -> (r: Result<String, serde_yaml::Error>)
    requires
        value_contents(*v).emittable(),
    ensures
        match r {
            Ok(text) => yaml_rendering(value_contents(*v)) == Ok::<Seq<char>, Seq<char>>(text@),
            Err(e) => yaml_rendering(value_contents(*v)) == Err::<Seq<char>, Seq<char>>(
                error_text(e),
            ),
        },
{
    serde_yaml::to_string(v)
}

/// Formats a `serde_yaml::Error` with its `Display`. Claimed: the text is
/// what [`error_text`] names.
#[verifier::external_body]
fn describe(e: &serde_yaml::Error) -> (text: String)
    ensures
        text@ == error_text(*e),
{
    e.to_string()
}

/// Tells the variants of `serde_yaml::Value` apart and hands out what each
/// holds: a number and a tag by their `Display`, the entries of a mapping in
/// the order of `Mapping::iter`. Claimed: that is what [`value_contents`]
/// names.
#[verifier::external_body]
fn peel<'a>(v: &'a serde_yaml::Value) -> (l: Layer<'a>)
    ensures
        l.model() == value_contents(*v),
{
    match v {
        serde_yaml::Value::Null => Layer::Null,
        serde_yaml::Value::Bool(b) => Layer::Bool(*b),
        serde_yaml::Value::Number(n) => Layer::Number(n.to_string()),
        serde_yaml::Value::String(s) => Layer::Text(s.clone()),
        serde_yaml::Value::Sequence(items) => Layer::Sequence(items),
        serde_yaml::Value::Mapping(m) => Layer::Mapping(m.iter().collect()),
        serde_yaml::Value::Tagged(t) => Layer::Tagged(t.tag.to_string(), &t.value),
    }
}

/// Makes a `serde_yaml::Value::String`. Claimed: it holds the string.
#[verifier::external_body]
fn text_value(text: String) -> (v: serde_yaml::Value)
    ensures
        value_contents(v) == YamlValue::Text(text@),
{
    serde_yaml::Value::String(text)
}

/// Makes a `serde_yaml::Value::Bool`. Claimed: it holds the boolean.
#[verifier::external_body]
fn bool_value(b: bool) -> (v: serde_yaml::Value)
    ensures
        value_contents(v) == YamlValue::Bool(b),
{
    serde_yaml::Value::Bool(b)
}

/// Makes a `serde_yaml::Value::Sequence`. Claimed: it holds the items in
/// order.
#[verifier::external_body]
fn sequence_value(items: Vec<serde_yaml::Value>) -> (v: serde_yaml::Value)
    ensures
        value_contents(v) == YamlValue::Sequence(contents_of(items@)),
{
    serde_yaml::Value::Sequence(items)
}

/// Makes a `serde_yaml::Value::Mapping` by collecting the entries into a
/// `serde_yaml::Mapping`. Claimed, for keys that are strings and all
/// different: it holds the entries in order.
#[verifier::external_body]
fn mapping_value(entries: Vec<(serde_yaml::Value, serde_yaml::Value)>) -> (v: serde_yaml::Value)
    requires
        forall|i: int|
            0 <= i < entries@.len() ==> value_contents((#[trigger] entries@[i]).0) is Text,
        forall|i: int, j: int|
            0 <= i < j < entries@.len() ==> value_contents((#[trigger] entries@[i]).0)
                != value_contents((#[trigger] entries@[j]).0),
    ensures
        value_contents(v) == YamlValue::Mapping(paired_contents_of(entries@)),
{
    serde_yaml::Value::Mapping(entries.into_iter().collect())
}

/// The plain tree that a `serde_yaml::Value` holds.
fn node_of_value(v: &serde_yaml::Value) -> (n: YamlNode)
    ensures
        n@ == value_contents(*v),
    decreases value_contents(*v),
{
    match peel(v) {
        Layer::Null => YamlNode::Null,
        Layer::Bool(b) => YamlNode::Bool(b),
        Layer::Number(t) => YamlNode::Number(t),
        Layer::Text(t) => YamlNode::Text(t),
        Layer::Sequence(items) => {
            let mut out: Vec<YamlNode> = Vec::new();
            let mut i: usize = 0;
            while i < items.len()
                invariant
                    i <= items.len(),
                    out.len() == i,
                    value_contents(*v) == YamlValue::Sequence(contents_of(items@)),
                    forall|j: int|
                        0 <= j < i ==> (#[trigger] out@[j]).model() == value_contents(items@[j]),
                decreases items.len() - i,
            {
                proof {
                    let children = value_contents(*v)->Sequence_0;
                    assert(children[i as int] == value_contents(items@[i as int]));
                    assert(decreases_to!(value_contents(*v) => children));
                    assert(decreases_to!(children => children[i as int]));
                }
                let child = node_of_value(&items[i]);
                out.push(child);
                i += 1;
            }
            proof {
                YamlNode::lemma_sequence_model(out);
                assert(nodes_model(out@) =~= contents_of(items@));
            }
            YamlNode::Sequence(out)
        },
        Layer::Mapping(entries) => {
            let mut out: Vec<(YamlNode, YamlNode)> = Vec::new();
            let mut i: usize = 0;
            let ghost pairs = value_contents(*v)->Mapping_0;
            while i < entries.len()
                invariant
                    i <= entries.len(),
                    out.len() == i,
                    value_contents(*v) == YamlValue::Mapping(pairs),
                    pairs.len() == entries@.len(),
                    forall|j: int|
                        0 <= j < entries@.len() ==> (#[trigger] pairs[j]) == (
                            value_contents(*entries@[j].0),
                            value_contents(*entries@[j].1),
                        ),
                    forall|j: int|
                        0 <= j < i ==> (#[trigger] out@[j]).0.model() == pairs[j].0
                            && out@[j].1.model() == pairs[j].1,
                decreases entries.len() - i,
            {
                proof {
                    assert(decreases_to!(value_contents(*v) => value_contents(*v)->Mapping_0));
                    assert(decreases_to!(pairs => pairs[i as int]));
                    assert(decreases_to!(pairs[i as int] => pairs[i as int].0));
                    assert(decreases_to!(pairs[i as int] => pairs[i as int].1));
                }
                let key = node_of_value(entries[i].0);
                let value = node_of_value(entries[i].1);
                out.push((key, value));
                i += 1;
            }
            proof {
                YamlNode::lemma_mapping_model(out);
                assert(pairs_model(out@) =~= pairs);
            }
            YamlNode::Mapping(out)
        },
        Layer::Tagged(tag, inner) => {
            proof {
                assert(decreases_to!(value_contents(*v) => value_contents(*v)->Tagged_1));
            }
            let child = node_of_value(inner);
            YamlNode::Tagged(tag, Box::new(child))
        },
    }
}

/// The `serde_yaml::Value` that holds an emittable tree.
fn value_of_node(node: &YamlNode) -> (v: serde_yaml::Value)
    requires
        node@.emittable(),
    ensures
        value_contents(v) == node@,
    decreases node,
{
    match node {
        YamlNode::Text(text) => text_value(text.clone()),
        YamlNode::Bool(b) => bool_value(*b),
        YamlNode::Sequence(items) => {
            proof {
                YamlNode::lemma_sequence_model(*items);
            }
            let mut out: Vec<serde_yaml::Value> = Vec::new();
            let mut i: usize = 0;
            while i < items.len()
                invariant
                    i <= items.len(),
                    out.len() == i,
                    node == YamlNode::Sequence(*items),
                    node@ == YamlValue::Sequence(nodes_model(items@)),
                    node@.emittable(),
                    forall|j: int|
                        0 <= j < i ==> value_contents(#[trigger] out@[j]) == items@[j].model(),
                decreases items.len() - i,
            {
                proof {
                    lemma_emittable_item(nodes_model(items@), i as int);
                }
                let child = value_of_node(&items[i]);
                out.push(child);
                i += 1;
            }
            assert(contents_of(out@) =~= nodes_model(items@));
            sequence_value(out)
        },
        YamlNode::Mapping(entries) => {
            proof {
                YamlNode::lemma_mapping_model(*entries);
            }
            let ghost pairs = pairs_model(entries@);
            let mut out: Vec<(serde_yaml::Value, serde_yaml::Value)> = Vec::new();
            let mut i: usize = 0;
            while i < entries.len()
                invariant
                    i <= entries.len(),
                    out.len() == i,
                    node == YamlNode::Mapping(*entries),
                    pairs == pairs_model(entries@),
                    node@ == YamlValue::Mapping(pairs),
                    node@.emittable(),
                    forall|j: int|
                        0 <= j < i ==> value_contents((#[trigger] out@[j]).0) == pairs[j].0
                            && value_contents(out@[j].1) == pairs[j].1,
                decreases entries.len() - i,
            {
                proof {
                    lemma_emittable_entry(pairs, i as int);
                }
                let key = value_of_node(&entries[i].0);
                let value = value_of_node(&entries[i].1);
                out.push((key, value));
                i += 1;
            }
            assert(paired_contents_of(out@) =~= pairs);
            assert forall|a: int| 0 <= a < out@.len() implies value_contents(
                (#[trigger] out@[a]).0,
            ) is Text by {
                lemma_emittable_entry(pairs, a);
            }
            assert forall|a: int, b: int| 0 <= a < b < out@.len() implies value_contents(
                (#[trigger] out@[a]).0,
            ) != value_contents((#[trigger] out@[b]).0) by {
                lemma_emittable_entry(pairs, a);
            }
            mapping_value(out)
        },
        _ => unreached(),
    }
}

/// Reads YAML text into a tree: `Ok` with the value of the text's one
/// document, or `Err` with the message of `serde_yaml`'s error.
pub fn read_yaml(text: &str) -> (r: Result<YamlNode, String>)
    ensures
        match r {
            Ok(node) => yaml_document(text@) == Ok::<YamlValue, Seq<char>>(node@),
            Err(message) => yaml_document(text@) == Err::<YamlValue, Seq<char>>(message@),
        },
{
    match load(text) {
        Ok(v) => Ok(node_of_value(&v)),
        Err(e) => Err(describe(&e)),
    }
}

/// Writes an emittable tree as YAML text: `Ok` with the text, or `Err` with
/// the message of `serde_yaml`'s error.
pub(crate) fn write_yaml(node: &YamlNode) -> (r: Result<String, String>)
    requires
        node@.emittable(),
    ensures
        match r {
            Ok(text) => yaml_rendering(node@) == Ok::<Seq<char>, Seq<char>>(text@),
            Err(message) => yaml_rendering(node@) == Err::<Seq<char>, Seq<char>>(message@),
        },
{
    let v = value_of_node(node);
    match render(&v) {
        Ok(text) => Ok(text),
        Err(e) => Err(describe(&e)),
    }
}

} // verus!
