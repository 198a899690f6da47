//! Reading the native build's configuration cache.
//!
//! The cache is line-oriented text. A line of the form `KEY:TYPE=VALUE` is an
//! entry; comment lines and lines of any other shape carry nothing. Entries
//! that are the build system's own bookkeeping are dropped, and what remains
//! becomes typed constants, in the order of the lines.

use crate::casing::{is_constant_identifier, normalize_key, shouty_snake_case};
use crate::error::{ConfigError, ConfigErrorView};
use crate::text::{
    chars_of, find_char, first_index_of, parse_u64, parse_unsigned, range_equals,
    range_starts_with, trim, trim_bounds,
};
use vstd::prelude::*;
use vstd::string::*;

verus! {

/// The type that the native build system records beside a cache value.
#[derive(Clone, Copy, Debug, PartialEq, Eq, Structural)]
pub enum TypeHint {
    Bool,
    Str,
    Path,
    Internal,
    Static,
    Uninitialized,
}

/// The hint that a type word of the cache stands for. Both path types of the
/// native build system are paths; a word that is none of the known ones is
/// read as a string.
pub open spec fn type_hint_of(word: Seq<char>) -> TypeHint {
    if word == "BOOL"@ {
        TypeHint::Bool
    } else if word == "FILEPATH"@ || word == "PATH"@ {
        TypeHint::Path
    } else if word == "INTERNAL"@ {
        TypeHint::Internal
    } else if word == "STATIC"@ {
        TypeHint::Static
    } else if word == "UNINITIALIZED"@ {
        TypeHint::Uninitialized
    } else {
        TypeHint::Str
    }
}

impl TypeHint {
    /// Entries of this type are bookkeeping of the native build system.
    pub open spec fn is_bookkeeping(self) -> bool {
        self == TypeHint::Path || self == TypeHint::Internal || self == TypeHint::Static || self
            == TypeHint::Uninitialized
    }

    pub fn bookkeeping(self) -> (r: bool)
        ensures
            r == self.is_bookkeeping(),
    {
        match self {
            TypeHint::Bool => false,
            TypeHint::Str => false,
            TypeHint::Path => true,
            TypeHint::Internal => true,
            TypeHint::Static => true,
            TypeHint::Uninitialized => true,
        }
    }
}

/// One entry of the cache, as written.
#[derive(Clone, Debug, PartialEq, Eq)]
pub struct CacheEntry {
    pub key: String,
    pub type_hint: TypeHint,
    pub value: String,
}

pub ghost struct CacheEntryView {
    pub key: Seq<char>,
    pub type_hint: TypeHint,
    pub value: Seq<char>,
}

impl View for CacheEntry {
    type V = CacheEntryView;

    open spec fn view(&self) -> CacheEntryView {
        CacheEntryView { key: self.key@, type_hint: self.type_hint, value: self.value@ }
    }
}

impl DeepView for CacheEntry {
    type V = CacheEntryView;

    open spec fn deep_view(&self) -> CacheEntryView {
        self@
    }
}

/// The prefix of the keys that the native build system reserves for itself.
pub open spec fn reserved_prefix() -> Seq<char> {
    "CMAKE_"@
}

impl CacheEntryView {
    /// The entry is bookkeeping of the native build system, by its type or by
    /// the reserved prefix of its key.
    pub open spec fn is_bookkeeping(self) -> bool {
        self.type_hint.is_bookkeeping() || reserved_prefix().is_prefix_of(self.key)
    }
}

/// The entry that a cache line holds.
///
/// The line is trimmed first. An empty line, a `#` comment and a `//` comment
/// hold nothing. Otherwise the first `:` and the first `=` of the line delimit
/// key, type and value; where either is absent, or the `=` comes first, the
/// line holds nothing.
pub open spec fn parse_line(line: Seq<char>) -> Option<CacheEntryView> {
    let t = trim(line);
    let colon = first_index_of(t, ':');
    let equals = first_index_of(t, '=');
    if t.len() == 0 || t[0] == '#' || "//"@.is_prefix_of(t) || !(colon < equals < t.len()) {
        None
    } else {
        Some(
            CacheEntryView {
                key: t.subrange(0, colon),
                type_hint: type_hint_of(t.subrange(colon + 1, equals)),
                value: t.subrange(equals + 1, t.len() as int),
            },
        )
    }
}

/// The value of a typed constant.
#[derive(Clone, Debug, PartialEq, Eq)]
pub enum ConstantValue {
    Bool(bool),
    UnsignedInteger(u64),
    Str(String),
}

pub ghost enum ConstantValueView {
    Bool(bool),
    UnsignedInteger(u64),
    Str(Seq<char>),
}

impl View for ConstantValue {
    type V = ConstantValueView;

    open spec fn view(&self) -> ConstantValueView {
        match self {
            ConstantValue::Bool(b) => ConstantValueView::Bool(*b),
            ConstantValue::UnsignedInteger(n) => ConstantValueView::UnsignedInteger(*n),
            ConstantValue::Str(s) => ConstantValueView::Str(s@),
        }
    }
}

impl DeepView for ConstantValue {
    type V = ConstantValueView;

    open spec fn deep_view(&self) -> ConstantValueView {
        self@
    }
}

/// What a value of boolean type says, where it is one of the canonical
/// spellings.
pub open spec fn bool_literal(value: Seq<char>) -> Option<bool> {
    if value == "ON"@ || value == "TRUE"@ {
        Some(true)
    } else if value == "OFF"@ || value == "FALSE"@ {
        Some(false)
    } else {
        None
    }
}

/// The typed value of an entry that is kept.
///
/// A boolean entry with a canonical spelling is a boolean; with any other
/// spelling it stays a string. Every other entry is a number where its text
/// is a non-negative integer in base ten that 64 bits hold, and a string
/// where it is not.
pub open spec fn constant_value(type_hint: TypeHint, value: Seq<char>) -> ConstantValueView {
    if type_hint == TypeHint::Bool {
        match bool_literal(value) {
            Some(b) => ConstantValueView::Bool(b),
            None => ConstantValueView::Str(value),
        }
    } else {
        match parse_u64(value) {
            Some(n) => ConstantValueView::UnsignedInteger(n),
            None => ConstantValueView::Str(value),
        }
    }
}

/// A typed constant for the generated module.
#[derive(Clone, Debug, PartialEq, Eq)]
pub struct GeneratedConstant {
    pub key: String,
    pub value: ConstantValue,
}

pub ghost struct GeneratedConstantView {
    pub key: Seq<char>,
    pub value: ConstantValueView,
}

impl View for GeneratedConstant {
    type V = GeneratedConstantView;

    open spec fn view(&self) -> GeneratedConstantView {
        GeneratedConstantView { key: self.key@, value: self.value@ }
    }
}

impl DeepView for GeneratedConstant {
    type V = GeneratedConstantView;

    open spec fn deep_view(&self) -> GeneratedConstantView {
        self@
    }
}

impl GeneratedConstantView {
    /// The key is made of uppercase letters, digits and underscores only.
    pub open spec fn wf(self) -> bool {
        is_constant_identifier(self.key)
    }

    /// The constant switches a feature on.
    pub open spec fn enables_feature(self) -> bool {
        self.value == ConstantValueView::Bool(true)
    }
}

/// The constant that a kept entry becomes, given the normalized form of its
/// key: the entry's typed value under that key if the key is an identifier,
/// and the error that names the entry's key if it is not.
pub open spec fn constant_with_key(entry: CacheEntryView, normalized: Seq<char>) -> Result<
    GeneratedConstantView,
    ConfigErrorView,
> {
    if is_constant_identifier(normalized) {
        Ok(
            GeneratedConstantView {
                key: normalized,
                value: constant_value(entry.type_hint, entry.value),
            },
        )
    } else {
        Err(ConfigErrorView::InvalidGeneratedIdentifier { key: entry.key })
    }
}

/// What one cache line contributes: nothing where it holds no entry or holds
/// bookkeeping, else the constant of its entry under the normalized key.
pub open spec fn line_constant(line: Seq<char>) -> Result<
    Option<GeneratedConstantView>,
    ConfigErrorView,
> {
    match parse_line(line) {
        None => Ok(None),
        Some(entry) => if entry.is_bookkeeping() {
            Ok(None)
        } else {
            match constant_with_key(entry, shouty_snake_case(entry.key)) {
                Ok(constant) => Ok(Some(constant)),
                Err(error) => Err(error),
            }
        },
    }
}

/// The constants of a cache, in the order of its lines. The first line whose
/// key is no identifier fails the whole cache.
pub open spec fn cache_constants(lines: Seq<Seq<char>>) -> Result<
    Seq<GeneratedConstantView>,
    ConfigErrorView,
>
    decreases lines.len(),
{
    if lines.len() == 0 {
        Ok(Seq::empty())
    } else {
        match cache_constants(lines.drop_last()) {
            Err(error) => Err(error),
            Ok(constants) => match line_constant(lines.last()) {
                Err(error) => Err(error),
                Ok(None) => Ok(constants),
                Ok(Some(constant)) => Ok(constants.push(constant)),
            },
        }
    }
}

/// The keys of the constants that switch a feature on, in order.
pub open spec fn enabled_features(constants: Seq<GeneratedConstantView>) -> Seq<Seq<char>>
    decreases constants.len(),
{
    if constants.len() == 0 {
        Seq::empty()
    } else if constants.last().enables_feature() {
        enabled_features(constants.drop_last()).push(constants.last().key)
    } else {
        enabled_features(constants.drop_last())
    }
}

/// What was taken from a cache: the constants for the generated module, and
/// the names of the features that are switched on.
#[derive(Clone, Debug, PartialEq, Eq)]
pub struct IngestedCache {
    pub namespace: String,
    pub constants: Vec<GeneratedConstant>,
    pub features: Vec<String>,
}

pub ghost struct IngestedCacheView {
    pub namespace: Seq<char>,
    pub constants: Seq<GeneratedConstantView>,
    pub features: Seq<Seq<char>>,
}

impl View for IngestedCache {
    type V = IngestedCacheView;

    open spec fn view(&self) -> IngestedCacheView {
        IngestedCacheView {
            namespace: self.namespace@,
            constants: self.constants.deep_view(),
            features: self.features.deep_view(),
        }
    }
}

impl DeepView for IngestedCache {
    type V = IngestedCacheView;

    open spec fn deep_view(&self) -> IngestedCacheView {
        self@
    }
}

impl IngestedCacheView {
    /// Every key is an identifier, and the features are exactly those that the
    /// constants switch on.
    pub open spec fn wf(self) -> bool {
        &&& forall|i: int| 0 <= i < self.constants.len() ==> (#[trigger] self.constants[i]).wf()
        &&& self.features == enabled_features(self.constants)
    }
}

/// What ingesting a cache under a namespace gives.
pub open spec fn ingested(lines: Seq<Seq<char>>, namespace: Seq<char>) -> Result<
    IngestedCacheView,
    ConfigErrorView,
> {
    match cache_constants(lines) {
        Err(error) => Err(error),
        Ok(constants) => Ok(
            IngestedCacheView { namespace, constants, features: enabled_features(constants) },
        ),
    }
}

/// Reads a type word of the cache.
fn read_type_hint(chars: &Vec<char>, from: usize, to: usize) -> (r: TypeHint)
    requires
        from <= to <= chars@.len(),
    ensures
        r == type_hint_of(chars@.subrange(from as int, to as int)),
{
    if range_equals(chars, from, to, &chars_of("BOOL")) {
        TypeHint::Bool
    } else if range_equals(chars, from, to, &chars_of("FILEPATH")) || range_equals(
        chars,
        from,
        to,
        &chars_of("PATH"),
    ) {
        TypeHint::Path
    } else if range_equals(chars, from, to, &chars_of("INTERNAL")) {
        TypeHint::Internal
    } else if range_equals(chars, from, to, &chars_of("STATIC")) {
        TypeHint::Static
    } else if range_equals(chars, from, to, &chars_of("UNINITIALIZED")) {
        TypeHint::Uninitialized
    } else {
        TypeHint::Str
    }
}

/// Reads one line of the cache.
pub fn parse_cache_line(line: &str) -> (r: Option<CacheEntry>)
    ensures
        r.deep_view() == parse_line(line@),
{
    let chars = chars_of(line);
    let (a, b) = trim_bounds(&chars);
    let ghost t = trim(line@);
    if a == b {
        return None;
    }
    proof {
        assert(t[0] == chars@[a as int]);
    }
    if chars[a] == '#' {
        return None;
    }
    if range_starts_with(&chars, a, b, &chars_of("//")) {
        return None;
    }
    let colon = find_char(&chars, a, b, ':');
    let equals = find_char(&chars, a, b, '=');
    if !(colon < equals && equals < b - a) {
        return None;
    }
    let key = line.substring_char(a, a + colon);
    let type_hint = read_type_hint(&chars, a + colon + 1, a + equals);
    let value = line.substring_char(a + equals + 1, b);
    proof {
        assert(t.subrange(0, colon as int) =~= line@.subrange(a as int, a + colon));
        assert(t.subrange(colon + 1, equals as int) =~= chars@.subrange(
            a + colon + 1,
            a + equals,
        ));
        assert(t.subrange(equals + 1, t.len() as int) =~= line@.subrange(a + equals + 1, b as int));
    }
    Some(CacheEntry { key: String::from_str(key), type_hint, value: String::from_str(value) })
}

impl CacheEntry {
    /// Whether the entry is bookkeeping of the native build system.
    pub fn is_bookkeeping(&self) -> (r: bool)
        ensures
            r == self@.is_bookkeeping(),
    {
        if self.type_hint.bookkeeping() {
            return true;
        }
        let key = chars_of(self.key.as_str());
        let r = range_starts_with(&key, 0, key.len(), &chars_of("CMAKE_"));
        proof {
            assert(key@.subrange(0, key@.len() as int) =~= key@);
        }
        r
    }
}

/// Reads a value of boolean type.
pub fn read_bool_literal(value: &str) -> (r: Option<bool>)
    ensures
        r == bool_literal(value@),
{
    let chars = chars_of(value);
    let n = chars.len();
    proof {
        assert(chars@.subrange(0, n as int) =~= value@);
    }
    if range_equals(&chars, 0, n, &chars_of("ON")) || range_equals(&chars, 0, n, &chars_of("TRUE")) {
        Some(true)
    } else if range_equals(&chars, 0, n, &chars_of("OFF")) || range_equals(
        &chars,
        0,
        n,
        &chars_of("FALSE"),
    ) {
        Some(false)
    } else {
        None
    }
}

/// Gives the text of an entry its type.
pub fn typed_value(type_hint: TypeHint, value: &str) -> (r: ConstantValue)
    ensures
        r@ == constant_value(type_hint, value@),
{
    match type_hint {
        TypeHint::Bool => match read_bool_literal(value) {
            Some(b) => ConstantValue::Bool(b),
            None => ConstantValue::Str(String::from_str(value)),
        },
        _ => {
            let chars = chars_of(value);
            proof {
                assert(chars@.subrange(0, chars@.len() as int) =~= value@);
            }
            match parse_unsigned(&chars, 0, chars.len()) {
                Some(n) => ConstantValue::UnsignedInteger(n),
                None => ConstantValue::Str(String::from_str(value)),
            }
        },
    }
}

/// Turns a kept entry into a constant.
pub fn resolve_constant(entry: &CacheEntry) -> (r: Result<GeneratedConstant, ConfigError>)
    ensures
        crate::error::result_view(r) == constant_with_key(entry@, shouty_snake_case(entry@.key)),
{
    match normalize_key(entry.key.as_str()) {
        Ok(key) => Ok(
            GeneratedConstant { key, value: typed_value(entry.type_hint, entry.value.as_str()) },
        ),
        Err(error) => Err(error),
    }
}

/// What one line of the cache contributes.
pub fn ingest_line(line: &str) -> (r: Result<Option<GeneratedConstant>, ConfigError>)
    ensures
        crate::error::result_view(r) == line_constant(line@),
{
    match parse_cache_line(line) {
        None => Ok(None),
        Some(entry) => {
            if entry.is_bookkeeping() {
                Ok(None)
            } else {
                match resolve_constant(&entry) {
                    Ok(constant) => Ok(Some(constant)),
                    Err(error) => Err(error),
                }
            }
        },
    }
}

/// Ingests the lines of a cache: the constants in the order of the lines, and
/// the features that they switch on.
pub fn ingest(lines: &Vec<String>, namespace: &str) -> (r: Result<IngestedCache, ConfigError>)
    ensures
        crate::error::result_view(r) == ingested(lines.deep_view(), namespace@),
        r matches Ok(cache) ==> cache@.wf(),
{
    let mut constants: Vec<GeneratedConstant> = Vec::new();
    let mut features: Vec<String> = Vec::new();
    let ghost all = lines.deep_view();
    let mut i: usize = 0;
    proof {
        assert(all.subrange(0, 0) =~= Seq::<Seq<char>>::empty());
        assert(constants.deep_view() =~= Seq::<GeneratedConstantView>::empty());
        assert(features.deep_view() =~= Seq::<Seq<char>>::empty());
    }
    while i < lines.len()
        invariant
            i <= lines@.len(),
            all == lines.deep_view(),
            cache_constants(all.subrange(0, i as int)) == Ok::<
                Seq<GeneratedConstantView>,
                ConfigErrorView,
            >(constants.deep_view()),
            features.deep_view() == enabled_features(constants.deep_view()),
            forall|k: int|
                0 <= k < constants@.len() ==> (#[trigger] constants.deep_view()[k]).wf(),
        decreases lines@.len() - i,
    {
        let ghost seen = all.subrange(0, i as int);
        let ghost next = all.subrange(0, i + 1);
        let ghost before = constants.deep_view();
        let ghost features_before = features.deep_view();
        proof {
            assert(next.drop_last() =~= seen);
            assert(next.last() == lines@[i as int]@);
        }
        match ingest_line(lines[i].as_str()) {
            Err(error) => {
                proof {
                    lemma_failure_is_final(all, i + 1);
                }
                return Err(error);
            },
            Ok(None) => {},
            Ok(Some(constant)) => {
                let enabled = match constant.value {
                    ConstantValue::Bool(b) => b,
                    _ => false,
                };
                if enabled {
                    features.push(constant.key.clone());
                }
                let ghost added = constant@;
                constants.push(constant);
                proof {
                    let after = constants.deep_view();
                    assert(after =~= before.push(added));
                    assert(after.drop_last() =~= before);
                    assert(after.last() == added);
                    if enabled {
                        assert(features.deep_view() =~= features_before.push(added.key));
                    } else {
                        assert(features.deep_view() =~= features_before);
                    }
                    assert forall|k: int| 0 <= k < after.len() implies (#[trigger] after[k]).wf() by {
                        if k < before.len() {
                            assert(after[k] == before[k]);
                        }
                    }
                }
            },
        }
        i = i + 1;
    }
    proof {
        assert(all.subrange(0, i as int) =~= all);
    }
    Ok(IngestedCache { namespace: String::from_str(namespace), constants, features })
}

/// Once a prefix of the lines fails, the whole cache fails in the same way.
proof fn lemma_failure_is_final(lines: Seq<Seq<char>>, k: int)
    requires
        0 <= k <= lines.len(),
        cache_constants(lines.subrange(0, k)) is Err,
    ensures
        cache_constants(lines) == cache_constants(lines.subrange(0, k)),
    decreases lines.len() - k,
{
    if k == lines.len() {
        assert(lines.subrange(0, k) =~= lines);
    } else {
        assert(lines.drop_last().subrange(0, k) =~= lines.subrange(0, k));
        lemma_failure_is_final(lines.drop_last(), k);
    }
}

} // verus!
