//! The metadata of a reply: a mapping from string keys to values of one of
//! several kinds.

use crate::text::str_eq;
use vstd::prelude::*;

verus! {

/// A value of the metadata mapping, one arm for each kind.
#[derive(Debug, Clone, PartialEq, Eq)]
pub enum MetaValue {
    /// A value of which no kind is set.
    Unset,
    /// The null value.
    Null,
    /// A number, held as its decimal text.
    Number(String),
    /// A string.
    Text(String),
    /// A truth value.
    Boolean(bool),
    /// A value of any other kind, such as a nested structure or a list, held
    /// as the text that shows it.
    Nested(String),
}

/// A `MetaValue` with its strings as sequences of characters.
pub ghost enum MetaValueView {
    Unset,
    Null,
    Number(Seq<char>),
    Text(Seq<char>),
    Boolean(bool),
    Nested(Seq<char>),
}

impl View for MetaValue {
    type V = MetaValueView;

    open spec fn view(&self) -> MetaValueView {
        match *self {
            MetaValue::Unset => MetaValueView::Unset,
            MetaValue::Null => MetaValueView::Null,
            MetaValue::Number(text) => MetaValueView::Number(text@),
            MetaValue::Text(text) => MetaValueView::Text(text@),
            MetaValue::Boolean(b) => MetaValueView::Boolean(b),
            MetaValue::Nested(text) => MetaValueView::Nested(text@),
        }
    }
}

impl MetaValueView {
    /// The text that shows the value, if it has a kind: a string as it is, a
    /// number by its decimal text, a truth value as `true` or `false`, the
    /// null value as `null`, and any other value by the text held for it.
    pub open spec fn display_text(self) -> Option<Seq<char>> {
        match self {
            MetaValueView::Text(text) => Some(text),
            MetaValueView::Number(text) => Some(text),
            MetaValueView::Boolean(b) => Some(
                if b {
                    "true"@
                } else {
                    "false"@
                },
            ),
            MetaValueView::Null => Some("null"@),
            MetaValueView::Nested(text) => Some(text),
            MetaValueView::Unset => None,
        }
    }
}

impl MetaValue {
    /// The text that shows the value, if it has a kind.
    pub fn display_text(&self) -> (r: Option<String>)
        ensures
            r.deep_view() == self@.display_text(),
    {
        match self {
            MetaValue::Text(text) => Some(text.clone()),
            MetaValue::Number(text) => Some(text.clone()),
            MetaValue::Boolean(b) => Some(
                if *b {
                    String::from_str("true")
                } else {
                    String::from_str("false")
                },
            ),
            MetaValue::Null => Some(String::from_str("null")),
            MetaValue::Nested(text) => Some(text.clone()),
            MetaValue::Unset => None,
        }
    }
}

/// One entry of the mapping.
#[derive(Debug)]
struct MetaEntry {
    key: String,
    value: MetaValue,
}

/// The mapping that a list of entries stands for; of two entries with one
/// key the later one counts.
spec fn entries_map(entries: Seq<MetaEntry>) -> Map<Seq<char>, MetaValueView>
    decreases entries.len(),
{
    if entries.len() == 0 {
        Map::empty()
    } else {
        entries_map(entries.drop_last()).insert(entries.last().key@, entries.last().value@)
    }
}

/// Whether no key occurs twice in `entries`.
spec fn distinct_keys(entries: Seq<MetaEntry>) -> bool {
    forall|i: int, j: int|
        0 <= i < j < entries.len() ==> (#[trigger] entries[i]).key@ != (#[trigger] entries[j]).key@
}

/// Whether `key` occurs in `entries`.
spec fn has_key(entries: Seq<MetaEntry>, key: Seq<char>) -> bool {
    exists|i: int| 0 <= i < entries.len() && (#[trigger] entries[i]).key@ == key
}

/// The keys of the mapping are the keys of the entries.
proof fn lemma_entries_map_domain(entries: Seq<MetaEntry>, key: Seq<char>)
    ensures
        entries_map(entries).contains_key(key) <==> has_key(entries, key),
    decreases entries.len(),
{
    if entries.len() > 0 {
        let front = entries.drop_last();
        lemma_entries_map_domain(front, key);
        if has_key(entries, key) && entries.last().key@ != key {
            let i = choose|i: int| 0 <= i < entries.len() && (#[trigger] entries[i]).key@ == key;
            assert(front[i].key@ == key);
        }
    }
}

/// Without its last entry, a list of distinct keys is one still.
proof fn lemma_distinct_keys_front(entries: Seq<MetaEntry>)
    requires
        distinct_keys(entries),
        entries.len() > 0,
    ensures
        distinct_keys(entries.drop_last()),
{
    let front = entries.drop_last();
    assert forall|a: int, b: int| 0 <= a < b < front.len() implies (#[trigger] front[a]).key@
        != (#[trigger] front[b]).key@ by {
        assert(front[a] == entries[a] && front[b] == entries[b]);
    }
}

/// Where no key occurs twice, each entry's key maps to that entry's value.
proof fn lemma_entries_map_value(entries: Seq<MetaEntry>, i: int)
    requires
        distinct_keys(entries),
        0 <= i < entries.len(),
    ensures
        entries_map(entries).contains_key(entries[i].key@),
        entries_map(entries)[entries[i].key@] == entries[i].value@,
    decreases entries.len(),
{
    if i < entries.len() - 1 {
        lemma_distinct_keys_front(entries);
        lemma_entries_map_value(entries.drop_last(), i);
    }
}

/// To put an entry in the place of one with the same key is to map the key
/// to the new value.
proof fn lemma_entries_map_update(entries: Seq<MetaEntry>, i: int, entry: MetaEntry)
    requires
        distinct_keys(entries),
        0 <= i < entries.len(),
        entry.key@ == entries[i].key@,
    ensures
        distinct_keys(entries.update(i, entry)),
        entries_map(entries.update(i, entry)) == entries_map(entries).insert(
            entry.key@,
            entry.value@,
        ),
    decreases entries.len(),
{
    let updated = entries.update(i, entry);
    let front = entries.drop_last();
    if i == entries.len() - 1 {
        assert(updated.drop_last() == front);
    } else {
        lemma_distinct_keys_front(entries);
        lemma_entries_map_update(front, i, entry);
        assert(updated.drop_last() == front.update(i, entry));
    }
}

/// The metadata of a reply: a finite mapping from keys to values.
#[derive(Debug)]
pub struct Metadata {
    entries: Vec<MetaEntry>,
}

impl View for Metadata {
    type V = Map<Seq<char>, MetaValueView>;

    closed spec fn view(&self) -> Map<Seq<char>, MetaValueView> {
        entries_map(self.entries@)
    }
}

impl Metadata {
    #[verifier::type_invariant]
    spec fn well_formed(&self) -> bool {
        distinct_keys(self.entries@)
    }

    /// The empty mapping.
    pub fn new() -> (r: Metadata)
        ensures
            r@ == Map::<Seq<char>, MetaValueView>::empty(),
    {
        Metadata { entries: Vec::new() }
    }

    /// The place of `key` among the entries, if it has one.
    fn position(&self, key: &str) -> (r: Option<usize>)
        ensures
            match r {
                Some(i) => i < self.entries@.len() && self.entries@[i as int].key@ == key@,
                None => !has_key(self.entries@, key@),
            },
    {
        let mut i: usize = 0;
        while i < self.entries.len()
            invariant
                i <= self.entries@.len(),
                forall|k: int| 0 <= k < i ==> (#[trigger] self.entries@[k]).key@ != key@,
            decreases self.entries@.len() - i,
        {
            if str_eq(self.entries[i].key.as_str(), key) {
                return Some(i);
            }
            i = i + 1;
        }
        None
    }

    /// The value that `key` maps to, if it maps to one.
    pub fn get(&self, key: &str) -> (r: Option<&MetaValue>)
        ensures
            match r {
                Some(value) => self@.contains_key(key@) && value@ == self@[key@],
                None => !self@.contains_key(key@),
            },
    {
        proof {
            use_type_invariant(self);
            lemma_entries_map_domain(self.entries@, key@);
        }
        match self.position(key) {
            Some(i) => {
                proof {
                    lemma_entries_map_value(self.entries@, i as int);
                }
                Some(&self.entries[i].value)
            },
            None => None,
        }
    }

    /// Maps `key` to `value`, in place of what it mapped to before.
    pub fn insert(&mut self, key: String, value: MetaValue)
        ensures
            final(self)@ == old(self)@.insert(key@, value@),
    {
        proof {
            use_type_invariant(&*self);
        }
        let entry = MetaEntry { key, value };
        let place = self.position(entry.key.as_str());
        let mut entries: Vec<MetaEntry> = Vec::new();
        core::mem::swap(&mut self.entries, &mut entries);
        match place {
            Some(i) => {
                proof {
                    lemma_entries_map_update(entries@, i as int, entry);
                }
                entries.set(i, entry);
            },
            None => {
                assert(entries@.push(entry).drop_last() == entries@);
                entries.push(entry);
            },
        }
        self.entries = entries;
    }
}

} // verus!
