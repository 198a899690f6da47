//! Translating manifest options into defines for the native build.
//!
//! An option is a named scalar. A boolean becomes a define that carries its
//! type, so that the native build cannot take it for a string; an integer is
//! written in base ten; a string is handed on as it is. Nothing else can be a
//! define.

use crate::error::{result_view, ConfigError, ConfigErrorView};
use crate::manifest::{entry_views, ManifestNode, ManifestValue};
use crate::text::{chars_of, is_ascii_digit, is_ascii_letter, push_signed_decimal, signed_decimal};
use vstd::prelude::*;
use vstd::string::*;

verus! {

/// The value of a define.
#[derive(Clone, Debug, PartialEq, Eq)]
pub enum DefineValue {
    Bool(bool),
    Integer(i64),
    Str(String),
}

pub ghost enum DefineValueView {
    Bool(bool),
    Integer(i64),
    Str(Seq<char>),
}

impl View for DefineValue {
    type V = DefineValueView;

    open spec fn view(&self) -> DefineValueView {
        match self {
            DefineValue::Bool(b) => DefineValueView::Bool(*b),
            DefineValue::Integer(i) => DefineValueView::Integer(*i),
            DefineValue::Str(s) => DefineValueView::Str(s@),
        }
    }
}

impl DeepView for DefineValue {
    type V = DefineValueView;

    open spec fn deep_view(&self) -> DefineValueView {
        self@
    }
}

/// One parameter of the native build.
#[derive(Clone, Debug, PartialEq, Eq)]
pub struct DefineEntry {
    pub key: String,
    pub value: DefineValue,
}

pub ghost struct DefineEntryView {
    pub key: Seq<char>,
    pub value: DefineValueView,
}

impl View for DefineEntry {
    type V = DefineEntryView;

    open spec fn view(&self) -> DefineEntryView {
        DefineEntryView { key: self.key@, value: self.value@ }
    }
}

impl DeepView for DefineEntry {
    type V = DefineEntryView;

    open spec fn deep_view(&self) -> DefineEntryView {
        self@
    }
}

/// The characters that the key of a define may hold.
pub open spec fn is_key_char(c: char) -> bool {
    is_ascii_letter(c) || is_ascii_digit(c) || c == '_'
}

/// `key` is one or more letters, digits and underscores.
pub open spec fn is_define_key(key: Seq<char>) -> bool {
    key.len() > 0 && forall|i: int| 0 <= i < key.len() ==> is_key_char(#[trigger] key[i])
}

impl DefineEntryView {
    pub open spec fn wf(self) -> bool {
        is_define_key(self.key)
    }

    /// The name under which the native build receives the define. A boolean
    /// carries its type in the name.
    pub open spec fn name(self) -> Seq<char> {
        match self.value {
            DefineValueView::Bool(_) => self.key + ":BOOL"@,
            _ => self.key,
        }
    }

    /// The text that the native build receives as the value.
    pub open spec fn value_text(self) -> Seq<char> {
        match self.value {
            DefineValueView::Bool(true) => "ON"@,
            DefineValueView::Bool(false) => "OFF"@,
            DefineValueView::Integer(i) => signed_decimal(i as int),
            DefineValueView::Str(s) => s,
        }
    }

    /// The define as the native build reads it: name, `=`, value.
    pub open spec fn serialized(self) -> Seq<char> {
        self.name() + "="@ + self.value_text()
    }
}

/// The serialized forms of a sequence of defines.
pub open spec fn serialized_all(defines: Seq<DefineEntryView>) -> Seq<Seq<char>> {
    defines.map_values(|define: DefineEntryView| define.serialized())
}

/// The define that an option becomes.
///
/// A key that is no define key fails the manifest. A boolean, an integer and a
/// string give a define of their type; a table or a value of another kind
/// cannot be coerced.
pub open spec fn translated(key: Seq<char>, value: ManifestNode) -> Result<
    DefineEntryView,
    ConfigErrorView,
> {
    if !is_define_key(key) {
        Err(ConfigErrorView::ManifestMalformed { detail: key })
    } else {
        match value {
            ManifestNode::Bool(b) => Ok(DefineEntryView { key, value: DefineValueView::Bool(b) }),
            ManifestNode::Integer(i) => Ok(
                DefineEntryView { key, value: DefineValueView::Integer(i) },
            ),
            ManifestNode::Text(s) => Ok(DefineEntryView { key, value: DefineValueView::Str(s) }),
            _ => Err(ConfigErrorView::TypeCoercionError { key }),
        }
    }
}

/// The defines of a table of options, in the order of its entries. Tables
/// within the table group other options and are passed over; the first entry
/// that cannot be translated fails the table.
pub open spec fn translated_table(entries: Seq<(Seq<char>, ManifestNode)>) -> Result<
    Seq<DefineEntryView>,
    ConfigErrorView,
>
    decreases entries.len(),
{
    if entries.len() == 0 {
        Ok(Seq::empty())
    } else {
        match translated_table(entries.drop_last()) {
            Err(error) => Err(error),
            Ok(defines) => if entries.last().1 is Table {
                Ok(defines)
            } else {
                match translated(entries.last().0, entries.last().1) {
                    Err(error) => Err(error),
                    Ok(define) => Ok(defines.push(define)),
                }
            },
        }
    }
}

/// Once a prefix of a table fails, the whole table fails in the same way.
proof fn lemma_failure_is_final(entries: Seq<(Seq<char>, ManifestNode)>, k: int)
    requires
        0 <= k <= entries.len(),
        translated_table(entries.subrange(0, k)) is Err,
    ensures
        translated_table(entries) == translated_table(entries.subrange(0, k)),
    decreases entries.len() - k,
{
    if k == entries.len() {
        assert(entries.subrange(0, k) =~= entries);
    } else {
        assert(entries.drop_last().subrange(0, k) =~= entries.subrange(0, k));
        lemma_failure_is_final(entries.drop_last(), k);
    }
}

/// Every define of a translated table has a define key.
pub proof fn lemma_translated_table_wf(entries: Seq<(Seq<char>, ManifestNode)>)
    ensures
        translated_table(entries) matches Ok(defines) ==> forall|i: int|
            0 <= i < defines.len() ==> (#[trigger] defines[i]).wf(),
    decreases entries.len(),
{
    if entries.len() > 0 {
        lemma_translated_table_wf(entries.drop_last());
    }
}

/// Whether `key` is one or more letters, digits and underscores.
pub fn is_valid_key(key: &str) -> (r: bool)
    ensures
        r == is_define_key(key@),
{
    let chars = chars_of(key);
    if chars.len() == 0 {
        return false;
    }
    let mut i: usize = 0;
    while i < chars.len()
        invariant
            i <= chars@.len(),
            chars@ == key@,
            forall|k: int| 0 <= k < i ==> is_key_char(#[trigger] chars@[k]),
        decreases chars@.len() - i,
    {
        let c = chars[i];
        let letter = (c >= 'a' && c <= 'z') || (c >= 'A' && c <= 'Z');
        if !(letter || (c >= '0' && c <= '9') || c == '_') {
            proof {
                assert(!is_key_char(key@[i as int]));
            }
            return false;
        }
        i = i + 1;
    }
    true
}

/// Translates one option into a define.
pub fn translate(key: &str, value: &ManifestValue) -> (r: Result<DefineEntry, ConfigError>)
    ensures
        result_view(r) == translated(key@, value@),
{
    if !is_valid_key(key) {
        return Err(ConfigError::ManifestMalformed { detail: String::from_str(key) });
    }
    match value {
        ManifestValue::Bool(b) => Ok(
            DefineEntry { key: String::from_str(key), value: DefineValue::Bool(*b) },
        ),
        ManifestValue::Integer(i) => Ok(
            DefineEntry { key: String::from_str(key), value: DefineValue::Integer(*i) },
        ),
        ManifestValue::Text(s) => Ok(
            DefineEntry { key: String::from_str(key), value: DefineValue::Str(s.clone()) },
        ),
        _ => Err(ConfigError::TypeCoercionError { key: String::from_str(key) }),
    }
}

/// Translates a table of options and appends its defines to `defines`. On
/// failure `defines` keeps what it held, followed by the defines of the
/// entries before the failing one.
pub(crate) fn translate_into(defines: &mut Vec<DefineEntry>, entries: &Vec<(String, ManifestValue)>) -> (r:
    Result<(), ConfigError>)
    ensures
        old(defines).deep_view().is_prefix_of(final(defines).deep_view()),
        r is Ok ==> translated_table(entry_views(entries@)) is Ok,
        r is Ok ==> final(defines).deep_view() == old(defines).deep_view() + translated_table(
            entry_views(entries@),
        )->Ok_0,
        r matches Err(error) ==> translated_table(entry_views(entries@)) == Err::<
            Seq<DefineEntryView>,
            ConfigErrorView,
        >(error@),
{
    let ghost start = defines.deep_view();
    let ghost all = entry_views(entries@);
    let ghost mut added: Seq<DefineEntryView> = Seq::empty();
    let mut i: usize = 0;
    proof {
        assert(all.subrange(0, 0) =~= Seq::<(Seq<char>, ManifestNode)>::empty());
        assert(start + added =~= start);
    }
    while i < entries.len()
        invariant
            i <= entries@.len(),
            all == entry_views(entries@),
            translated_table(all.subrange(0, i as int)) == Ok::<
                Seq<DefineEntryView>,
                ConfigErrorView,
            >(added),
            defines.deep_view() == start + added,
            start == old(defines).deep_view(),
        decreases entries@.len() - i,
    {
        let ghost next = all.subrange(0, i + 1);
        let ghost before = defines.deep_view();
        proof {
            assert(next.drop_last() =~= all.subrange(0, i as int));
            assert(next.last() == (entries@[i as int].0@, entries@[i as int].1@));
        }
        let is_table = match &entries[i].1 {
            ManifestValue::Table(_) => true,
            _ => false,
        };
        if !is_table {
            match translate(entries[i].0.as_str(), &entries[i].1) {
                Err(error) => {
                    proof {
                        lemma_failure_is_final(all, i + 1);
                        assert((start + added).subrange(0, start.len() as int) =~= start);
                    }
                    return Err(error);
                },
                Ok(define) => {
                    let ghost view = define@;
                    defines.push(define);
                    proof {
                        added = added.push(view);
                        assert(defines.deep_view() =~= before.push(view));
                        assert(before.push(view) =~= start + added);
                    }
                },
            }
        }
        i = i + 1;
    }
    proof {
        assert(all.subrange(0, i as int) =~= all);
        assert((start + added).subrange(0, start.len() as int) =~= start);
    }
    Ok(())
}

/// Translates a table of options into defines, in the order of its entries.
pub fn translate_table(entries: &Vec<(String, ManifestValue)>) -> (r: Result<
    Vec<DefineEntry>,
    ConfigError,
>)
    ensures
        result_view(r) == translated_table(entry_views(entries@)),
{
    let mut defines: Vec<DefineEntry> = Vec::new();
    proof {
        assert(defines.deep_view() =~= Seq::<DefineEntryView>::empty());
    }
    match translate_into(&mut defines, entries) {
        Ok(_) => {
            proof {
                let added = translated_table(entry_views(entries@))->Ok_0;
                assert(Seq::<DefineEntryView>::empty() + added =~= added);
            }
            Ok(defines)
        },
        Err(error) => Err(error),
    }
}

impl DefineEntry {
    /// The name under which the native build receives the define.
    pub fn name(&self) -> (r: String)
        ensures
            r@ == self@.name(),
    {
        let mut out = self.key.clone();
        match &self.value {
            DefineValue::Bool(_) => {
                out.append(":BOOL");
            },
            _ => {},
        }
        out
    }

    /// The text that the native build receives as the value.
    pub fn value_text(&self) -> (r: String)
        ensures
            r@ == self@.value_text(),
    {
        match &self.value {
            DefineValue::Bool(true) => String::from_str("ON"),
            DefineValue::Bool(false) => String::from_str("OFF"),
            DefineValue::Integer(i) => {
                let mut out = String::new();
                push_signed_decimal(&mut out, *i);
                proof {
                    assert(Seq::<char>::empty() + signed_decimal(*i as int) =~= signed_decimal(
                        *i as int,
                    ));
                }
                out
            },
            DefineValue::Str(s) => s.clone(),
        }
    }

    /// The define as the native build reads it.
    pub fn serialize(&self) -> (r: String)
        ensures
            r@ == self@.serialized(),
    {
        let mut out = self.name();
        out.append("=");
        out.append(self.value_text().as_str());
        out
    }
}

/// Serializes defines, each as the native build reads it.
pub fn serialize_all(defines: &Vec<DefineEntry>) -> (r: Vec<String>)
    ensures
        r.deep_view() == serialized_all(defines.deep_view()),
{
    let mut out: Vec<String> = Vec::new();
    let mut i: usize = 0;
    while i < defines.len()
        invariant
            i <= defines@.len(),
            out@.len() == i,
            forall|k: int| 0 <= k < i ==> out@[k]@ == defines@[k]@.serialized(),
        decreases defines@.len() - i,
    {
        out.push(defines[i].serialize());
        i = i + 1;
    }
    proof {
        assert(out.deep_view() =~= serialized_all(defines.deep_view()));
    }
    out
}

} // verus!
