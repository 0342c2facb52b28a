//! A plain tree model of YAML values, with the lookups that reading a schema
//! from such a tree needs.

use vstd::prelude::*;
use vstd::string::StringExecFns;
use crate::text::same_text;

verus! {

/// Mathematical model of a YAML value.
pub enum YamlValue {
    /// The null value.
    Null,
    /// A boolean.
    Bool(bool),
    /// A number, by its canonical text.
    Number(Seq<char>),
    /// A string.
    Text(Seq<char>),
    /// A sequence of values.
    Sequence(Seq<YamlValue>),
    /// A mapping: its entries, key and value, in the order of the document.
    Mapping(Seq<(YamlValue, YamlValue)>),
    /// A value under a tag.
    Tagged(Seq<char>, Box<YamlValue>),
}

/// The entries of a YAML mapping.
pub type Pairs = Seq<(YamlValue, YamlValue)>;

impl YamlValue {
    /// The value under all its tags.
    pub open spec fn untagged(self) -> YamlValue
        decreases self,
    {
        match self {
            YamlValue::Tagged(_, inner) => (*inner).untagged(),
            _ => self,
        }
    }

    /// The text of a scalar: a string is its own text, a number its canonical
    /// text, a boolean `true` or `false`, null the empty text. A sequence or
    /// a mapping has none.
    pub open spec fn scalar_text(self) -> Option<Seq<char>> {
        match self.untagged() {
            YamlValue::Null => Some(Seq::empty()),
            YamlValue::Bool(b) => Some(
                if b {
                    "true"@
                } else {
                    "false"@
                },
            ),
            YamlValue::Number(t) => Some(t),
            YamlValue::Text(t) => Some(t),
            _ => None,
        }
    }

    /// Whether the value is made of strings, booleans, sequences and mappings
    /// alone, with every key of a mapping a string that occurs once in it.
    pub open spec fn emittable(self) -> bool
        decreases self,
    {
        match self {
            YamlValue::Text(_) => true,
            YamlValue::Bool(_) => true,
            YamlValue::Sequence(items) => {
                forall|i: int|
                    #![trigger items[i]]
                    0 <= i < items.len() ==> items[i].emittable()
            },
            YamlValue::Mapping(pairs) => {
                &&& forall|i: int|
                    0 <= i < pairs.len() ==> (#[trigger] pairs[i]).0 is Text
                        && pairs[i].1.emittable()
                &&& forall|i: int, j: int|
                    0 <= i < j < pairs.len() ==> (#[trigger] pairs[i]).0 != (#[trigger] pairs[j]).0
            },
            _ => false,
        }
    }
}

/// The value of the first entry whose key is the string `key`, if any.
pub open spec fn lookup(pairs: Pairs, key: Seq<char>) -> Option<YamlValue>
    decreases pairs.len(),
{
    if pairs.len() == 0 {
        None
    } else if pairs[0].0.untagged() == YamlValue::Text(key) {
        Some(pairs[0].1)
    } else {
        lookup(pairs.drop_first(), key)
    }
}

/// `pairs` with an entry for `key` at its end where there is a value, else
/// unchanged.
pub open spec fn with_field(pairs: Pairs, key: Seq<char>, value: Option<YamlValue>) -> Pairs {
    match value {
        Some(v) => pairs.push((YamlValue::Text(key), v)),
        None => pairs,
    }
}

/// Looking a key up after a field was added finds what was there before, or
/// else the new field where it has that key.
pub broadcast proof fn lemma_lookup_with_field(
    pairs: Pairs,
    key: Seq<char>,
    value: Option<YamlValue>,
    wanted: Seq<char>,
)
    ensures
        #[trigger] lookup(with_field(pairs, key, value), wanted) == (match lookup(pairs, wanted) {
            Some(found) => Some(found),
            None => if wanted == key {
                value
            } else {
                None
            },
        }),
    decreases pairs.len(),
{
    if value is Some {
        let v = value->0;
        let after = pairs.push((YamlValue::Text(key), v));
        assert(after == with_field(pairs, key, value));
        if pairs.len() == 0 {
            assert(after[0] == (YamlValue::Text(key), v));
            assert(after.drop_first() =~= Pairs::empty());
            assert(YamlValue::Text(key).untagged() == YamlValue::Text(key));
            assert(lookup(Pairs::empty(), wanted) is None);
            assert(lookup(pairs, wanted) is None);
            if wanted == key {
                assert(lookup(after, wanted) == Some(v));
            } else {
                assert(YamlValue::Text(key) != YamlValue::Text(wanted));
                assert(lookup(after, wanted) == lookup(after.drop_first(), wanted));
            }
        } else {
            let rest = pairs.drop_first();
            assert(after[0] == pairs[0]);
            assert(after.drop_first() =~= rest.push((YamlValue::Text(key), v)));
            assert(with_field(rest, key, value) == rest.push((YamlValue::Text(key), v)));
            lemma_lookup_with_field(rest, key, value, wanted);
        }
    }
}

/// Nothing is found among no entries.
pub broadcast proof fn lemma_lookup_empty(wanted: Seq<char>)
    ensures
        #[trigger] lookup(Pairs::empty(), wanted) is None,
{
}

/// Whether every key of `pairs` is a string that occurs once, and every
/// value is emittable.
pub open spec fn emittable_pairs(pairs: Pairs) -> bool {
    YamlValue::Mapping(pairs).emittable()
}

/// Adding an emittable field under a key that is not there yet keeps the
/// entries emittable.
pub proof fn lemma_with_field_emittable(pairs: Pairs, key: Seq<char>, value: Option<YamlValue>)
    requires
        emittable_pairs(pairs),
        lookup(pairs, key) is None,
        value matches Some(v) ==> v.emittable(),
    ensures
        emittable_pairs(with_field(pairs, key, value)),
{
    if value is Some {
        let after = with_field(pairs, key, value);
        lemma_lookup_none(pairs, key);
        assert forall|i: int| 0 <= i < after.len() implies (#[trigger] after[i]).0 is Text
            && after[i].1.emittable() by {
            if i < pairs.len() {
                assert(after[i] == pairs[i]);
            }
        }
        assert forall|i: int, j: int| 0 <= i < j < after.len() implies (#[trigger] after[i]).0 != (
        #[trigger] after[j]).0 by {
            assert(after[i] == pairs[i]);
            if j < pairs.len() {
                assert(after[j] == pairs[j]);
            } else {
                assert(pairs[i].0.untagged() != YamlValue::Text(key));
                assert(pairs[i].0 is Text);
            }
        }
    }
}

/// A key that is not found is the key of no entry.
pub proof fn lemma_lookup_none(pairs: Pairs, key: Seq<char>)
    requires
        lookup(pairs, key) is None,
    ensures
        forall|i: int|
            0 <= i < pairs.len() ==> (#[trigger] pairs[i]).0.untagged() != YamlValue::Text(key),
    decreases pairs.len(),
{
    if pairs.len() > 0 {
        let rest = pairs.drop_first();
        lemma_lookup_none(rest, key);
        assert forall|i: int| 0 <= i < pairs.len() implies (#[trigger] pairs[i]).0.untagged()
            != YamlValue::Text(key) by {
            if i > 0 {
                assert(pairs[i] == rest[i - 1]);
            }
        }
    }
}

/// A YAML value held as plain data.
#[derive(Debug, PartialEq)]
pub enum YamlNode {
    /// The null value.
    Null,
    /// A boolean.
    Bool(bool),
    /// A number, by its canonical text.
    Number(String),
    /// A string.
    Text(String),
    /// A sequence of values.
    Sequence(Vec<YamlNode>),
    /// A mapping: its entries, key and value, in the order of the document.
    Mapping(Vec<(YamlNode, YamlNode)>),
    /// A value under a tag.
    Tagged(String, Box<YamlNode>),
}

/// The values that a list of nodes stands for.
pub open spec fn nodes_model(items: Seq<YamlNode>) -> Seq<YamlValue> {
    Seq::new(items.len(), |i: int| items[i].model())
}

/// The entries that a list of pairs of nodes stands for.
pub open spec fn pairs_model(entries: Seq<(YamlNode, YamlNode)>) -> Pairs {
    Seq::new(entries.len(), |i: int| (entries[i].0.model(), entries[i].1.model()))
}

impl YamlNode {
    /// The value that this node stands for.
    pub open spec fn model(self) -> YamlValue
        decreases self,
    {
        match self {
            YamlNode::Null => YamlValue::Null,
            YamlNode::Bool(b) => YamlValue::Bool(b),
            YamlNode::Number(t) => YamlValue::Number(t@),
            YamlNode::Text(t) => YamlValue::Text(t@),
            YamlNode::Sequence(items) => YamlValue::Sequence(
                Seq::new(
                    items@.len(),
                    |i: int|
                        if 0 <= i < items@.len() {
                            items@[i].model()
                        } else {
                            YamlValue::Null
                        },
                ),
            ),
            YamlNode::Mapping(entries) => YamlValue::Mapping(
                Seq::new(
                    entries@.len(),
                    |i: int|
                        if 0 <= i < entries@.len() {
                            (entries@[i].0.model(), entries@[i].1.model())
                        } else {
                            (YamlValue::Null, YamlValue::Null)
                        },
                ),
            ),
            YamlNode::Tagged(tag, inner) => YamlValue::Tagged(tag@, Box::new((*inner).model())),
        }
    }

    /// A sequence node stands for the sequence of what its items stand for.
    pub proof fn lemma_sequence_model(items: Vec<YamlNode>)
        ensures
            YamlNode::Sequence(items).model() == YamlValue::Sequence(nodes_model(items@)),
    {
        assert(YamlNode::Sequence(items).model()->Sequence_0 =~= nodes_model(items@));
    }

    /// A mapping node stands for the mapping of what its entries stand for.
    pub proof fn lemma_mapping_model(entries: Vec<(YamlNode, YamlNode)>)
        ensures
            YamlNode::Mapping(entries).model() == YamlValue::Mapping(pairs_model(entries@)),
    {
        assert(YamlNode::Mapping(entries).model()->Mapping_0 =~= pairs_model(entries@));
    }

    /// The node under all its tags.
    pub fn untagged(&self) -> (r: &YamlNode)
        ensures
            r@ == self@.untagged(),
            !(r is Tagged),
        decreases self,
    {
        match self {
            YamlNode::Tagged(_, inner) => inner.untagged(),
            _ => self,
        }
    }

    /// The text of a scalar; `None` for a sequence or a mapping.
    pub fn scalar_text(&self) -> (r: Option<String>)
        ensures
            r.deep_view() == self@.scalar_text(),
    {
        match self.untagged() {
            YamlNode::Null => {
                let empty = String::new();
                Some(empty)
            },
            YamlNode::Bool(b) => Some(
                if *b {
                    String::from_str("true")
                } else {
                    String::from_str("false")
                },
            ),
            YamlNode::Number(t) => Some(t.clone()),
            YamlNode::Text(t) => Some(t.clone()),
            _ => None,
        }
    }

    /// Whether the node, under its tags, is null.
    pub fn is_null(&self) -> (r: bool)
        ensures
            r == (self@.untagged() is Null),
    {
        match self.untagged() {
            YamlNode::Null => true,
            _ => false,
        }
    }
}

impl View for YamlNode {
    type V = YamlValue;

    open spec fn view(&self) -> YamlValue {
        self.model()
    }
}

impl DeepView for YamlNode {
    type V = YamlValue;

    open spec fn deep_view(&self) -> YamlValue {
        self.model()
    }
}

/// The value of the first entry whose key is the string `key`, if any.
pub fn find<'a>(entries: &'a Vec<(YamlNode, YamlNode)>, key: &str) -> (r: Option<&'a YamlNode>)
    ensures
        r.deep_view() == lookup(pairs_model(entries@), key@),
{
    let ghost pairs = pairs_model(entries@);
    let mut i: usize = 0;
    assert(pairs.skip(0) =~= pairs);
    while i < entries.len()
        invariant
            i <= entries.len(),
            pairs == pairs_model(entries@),
            lookup(pairs, key@) == lookup(pairs.skip(i as int), key@),
        decreases entries.len() - i,
    {
        let ghost rest = pairs.skip(i as int);
        assert(rest[0] == pairs[i as int]);
        assert(rest.drop_first() =~= pairs.skip(i + 1));
        let matches = match entries[i].0.untagged() {
            YamlNode::Text(t) => same_text(t.as_str(), key),
            _ => false,
        };
        if matches {
            return Some(&entries[i].1);
        }
        i += 1;
    }
    None
}

/// Every item of an emittable sequence is emittable.
pub proof fn lemma_emittable_item(items: Seq<YamlValue>, i: int)
    requires
        YamlValue::Sequence(items).emittable(),
        0 <= i < items.len(),
    ensures
        items[i].emittable(),
{
    let s = YamlValue::Sequence(items);
    assert(s->Sequence_0[i] == items[i]);
}

/// Every entry of an emittable mapping has a string as its key and an
/// emittable value, and no two entries have one key.
pub proof fn lemma_emittable_entry(pairs: Pairs, i: int)
    requires
        YamlValue::Mapping(pairs).emittable(),
        0 <= i < pairs.len(),
    ensures
        pairs[i].0 is Text,
        pairs[i].1.emittable(),
        forall|j: int| 0 <= j < pairs.len() && j != i ==> (#[trigger] pairs[j]).0 != pairs[i].0,
{
}

} // verus!
