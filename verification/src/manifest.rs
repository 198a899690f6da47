//! The build manifest as structured data.
//!
//! A manifest is a tree: tables of named values, where a value is a scalar or
//! another table. It is built once, by whoever read and parsed the manifest
//! file, and only read afterwards. The entries of a table keep the order in
//! which the file wrote them.

use crate::text::same_text;
use vstd::prelude::*;
use vstd::string::*;

verus! {

/// A value of the manifest.
#[derive(Debug, PartialEq, Eq)]
pub enum ManifestValue {
    Bool(bool),
    Integer(i64),
    Text(String),
    /// A table: its entries, in the order in which they were written.
    Table(Vec<(String, ManifestValue)>),
    /// Any value of another kind. It has no form as a define.
    Other,
}

/// The mathematical content of a [`ManifestValue`].
pub ghost enum ManifestNode {
    Bool(bool),
    Integer(i64),
    Text(Seq<char>),
    Table(Seq<(Seq<char>, ManifestNode)>),
    Other,
}

/// The content of a value: scalars as they are, a table entry by entry.
pub open spec fn node_of(value: ManifestValue) -> ManifestNode
    decreases value,
{
    match value {
        ManifestValue::Bool(b) => ManifestNode::Bool(b),
        ManifestValue::Integer(i) => ManifestNode::Integer(i),
        ManifestValue::Text(s) => ManifestNode::Text(s@),
        ManifestValue::Table(entries) => ManifestNode::Table(
            Seq::new(
                entries@.len(),
                |i: int|
                    if 0 <= i < entries@.len() {
                        (entries@[i].0@, node_of(entries@[i].1))
                    } else {
                        (Seq::empty(), ManifestNode::Other)
                    },
            ),
        ),
        ManifestValue::Other => ManifestNode::Other,
    }
}

impl View for ManifestValue {
    type V = ManifestNode;

    open spec fn view(&self) -> ManifestNode {
        node_of(*self)
    }
}

impl DeepView for ManifestValue {
    type V = ManifestNode;

    open spec fn deep_view(&self) -> ManifestNode {
        self@
    }
}

/// The value of the first entry named `key`.
pub open spec fn lookup(entries: Seq<(Seq<char>, ManifestNode)>, key: Seq<char>) -> Option<
    ManifestNode,
>
    decreases entries.len(),
{
    if entries.len() == 0 {
        None
    } else if entries[0].0 == key {
        Some(entries[0].1)
    } else {
        lookup(entries.drop_first(), key)
    }
}

impl ManifestNode {
    /// The value named `key` in this table. A value that is no table has no
    /// named values.
    pub open spec fn get(self, key: Seq<char>) -> Option<ManifestNode> {
        match self {
            ManifestNode::Table(entries) => lookup(entries, key),
            _ => None,
        }
    }

    /// The entries of the table named `key` in this table, where there is one.
    pub open spec fn table(self, key: Seq<char>) -> Option<Seq<(Seq<char>, ManifestNode)>> {
        match self.get(key) {
            Some(ManifestNode::Table(entries)) => Some(entries),
            _ => None,
        }
    }
}

/// The views of the entries of a table.
pub open spec fn entry_views(entries: Seq<(String, ManifestValue)>) -> Seq<
    (Seq<char>, ManifestNode),
> {
    Seq::new(entries.len(), |i: int| (entries[i].0@, entries[i].1@))
}

/// The view of a table is the table of the views of its entries.
pub proof fn lemma_table_view(entries: Vec<(String, ManifestValue)>)
    ensures
        ManifestValue::Table(entries)@ == ManifestNode::Table(entry_views(entries@)),
{
    assert(ManifestValue::Table(entries)@->Table_0 =~= entry_views(entries@));
}

/// The value of the first entry named `key`.
pub fn find_entry<'a>(entries: &'a Vec<(String, ManifestValue)>, key: &str) -> (r: Option<
    &'a ManifestValue,
>)
    ensures
        r.deep_view() == lookup(entry_views(entries@), key@),
{
    let ghost all = entry_views(entries@);
    let mut i: usize = 0;
    proof {
        assert(all.subrange(0, all.len() as int) =~= all);
    }
    while i < entries.len()
        invariant
            i <= entries@.len(),
            all == entry_views(entries@),
            lookup(all, key@) == lookup(all.subrange(i as int, all.len() as int), key@),
        decreases entries@.len() - i,
    {
        let ghost rest = all.subrange(i as int, all.len() as int);
        proof {
            assert(rest[0] == all[i as int]);
            assert(rest.drop_first() =~= all.subrange(i + 1, all.len() as int));
        }
        if same_text(entries[i].0.as_str(), key) {
            return Some(&entries[i].1);
        }
        i = i + 1;
    }
    None
}

impl ManifestValue {
    /// The value named `key` in this table.
    pub fn get(&self, key: &str) -> (r: Option<&ManifestValue>)
        ensures
            r.deep_view() == self@.get(key@),
    {
        match self {
            ManifestValue::Table(entries) => {
                proof {
                    lemma_table_view(*entries);
                }
                find_entry(entries, key)
            },
            _ => None,
        }
    }

    /// The entries of the table named `key` in this table.
    pub fn table(&self, key: &str) -> (r: Option<&Vec<(String, ManifestValue)>>)
        ensures
            match r {
                Some(entries) => self@.table(key@) == Some(entry_views(entries@)),
                None => self@.table(key@) is None,
            },
    {
        match self.get(key) {
            Some(ManifestValue::Table(entries)) => {
                proof {
                    lemma_table_view(*entries);
                }
                Some(entries)
            },
            _ => None,
        }
    }
}

} // verus!
