//! Properties that hold of the stages together.
//!
//! Each is stated over the specification functions that the contracts of the
//! stages use, and proved from their definitions.

use crate::arch::{architecture_of, ArchitectureClass};
use crate::cache::{
    cache_constants, constant_value, constant_with_key, line_constant, parse_line,
    reserved_prefix, CacheEntryView, ConstantValueView, GeneratedConstantView, IngestedCacheView,
    TypeHint,
};
use crate::casing::{normalized_key, shouty_snake_case};
use crate::define::{is_define_key, is_key_char, translated, DefineEntryView, DefineValueView};
use crate::emit::{cache_artifact, emitted};
use crate::error::ConfigErrorView;
use crate::headers::{arm_platform_directory, default_platform, include_fragments};
use crate::manifest::ManifestNode;
use crate::resolve::{declared_text, identity_section, resolved, ResolvedBuildConfigView};
use crate::text::{
    all_digits, decimal, digit_char, digit_value, digits_value, first_index_of, is_ascii_digit, is_whitespace,
    lemma_first_index_of_is, parse_u64, trim, trim_end, trim_start,
};
use vstd::prelude::*;
use vstd::string::*;

verus! {

/// The architecture class of a resolved build is decided by its target triple
/// alone: it is the class that the triple names, so two builds with the same
/// target have the same class, whatever else their manifests hold.
pub proof fn law_architecture_follows_target(
    manifest: ManifestNode,
    profile: Seq<char>,
    requested_target: Seq<char>,
    other_manifest: ManifestNode,
    other_profile: Seq<char>,
)
    ensures
        resolved(manifest, profile, requested_target) matches Ok(config) ==> {
            &&& config.target == requested_target
            &&& architecture_of(requested_target) == Some(config.architecture_class)
        },
        resolved(manifest, profile, requested_target) matches Ok(config) ==> (resolved(
            other_manifest,
            other_profile,
            requested_target,
        ) matches Ok(other) ==> other.architecture_class == config.architecture_class),
{
}

/// A build that asks for another target than the manifest declares is stopped
/// with `TargetMismatch`, whatever else the manifest holds.
pub proof fn law_target_mismatch_is_fatal(
    manifest: ManifestNode,
    profile: Seq<char>,
    requested_target: Seq<char>,
    declared_target: Seq<char>,
)
    requires
        manifest.get(identity_section()) matches Some(identity) && declared_text(
            identity,
            "target"@,
        ) == Ok::<Seq<char>, ConfigErrorView>(declared_target) && declared_text(
            identity,
            "platform"@,
        ) is Ok,
        requested_target != declared_target,
    ensures
        resolved(manifest, profile, requested_target) == Err::<
            ResolvedBuildConfigView,
            ConfigErrorView,
        >(
            ConfigErrorView::TargetMismatch {
                requested: requested_target,
                declared: declared_target,
            },
        ),
{
}

/// The text that a boolean option that is on becomes as a define.
pub open spec fn switched_on(key: Seq<char>) -> DefineEntryView {
    DefineEntryView { key, value: DefineValueView::Bool(true) }
}

/// A boolean option that is on becomes a define that carries its type and the
/// value `ON`. The cache line that says the same holds a boolean entry under
/// the same key, and where that key gives an identifier, the entry becomes the
/// boolean constant `true`.
///
/// This holds of the keys that the native build system does not reserve for
/// itself; an entry under a reserved key is dropped, not read back.
pub proof fn law_boolean_round_trip(key: Seq<char>)
    requires
        is_define_key(key),
        !reserved_prefix().is_prefix_of(key),
    ensures
        translated(key, ManifestNode::Bool(true)) == Ok::<_, ConfigErrorView>(switched_on(key)),
        switched_on(key).value_text() == "ON"@,
        switched_on(key).serialized() == key + ":BOOL=ON"@,
        parse_line(switched_on(key).serialized()) == Some(
            CacheEntryView { key, type_hint: TypeHint::Bool, value: "ON"@ },
        ),
        constant_value(TypeHint::Bool, "ON"@) == ConstantValueView::Bool(true),
        line_constant(switched_on(key).serialized()) == match normalized_key(key) {
            Ok(name) => Ok::<_, ConfigErrorView>(
                Some(GeneratedConstantView { key: name, value: ConstantValueView::Bool(true) }),
            ),
            Err(error) => Err(error),
        },
{
    reveal_strlit(":BOOL");
    reveal_strlit("=");
    reveal_strlit("ON");
    reveal_strlit(":BOOL=ON");
    reveal_strlit("//");
    reveal_strlit("BOOL");
    let line = switched_on(key).serialized();
    let n = key.len() as int;
    assert(line =~= key + ":BOOL=ON"@);
    assert(line.len() == n + 8);
    assert forall|j: int| 0 <= j < n implies line[j] == key[j] && is_key_char(line[j]) by {
        assert(is_key_char(key[j]));
    }
    assert(is_key_char(line[0]));
    assert(!is_whitespace(line[0]));
    assert(trim_start(line) == line);
    assert(line.last() == 'N');
    assert(trim_end(line) == line);
    assert(trim(line) == line);
    assert(!"//"@.is_prefix_of(line)) by {
        if "//"@.is_prefix_of(line) {
            assert(line[0] == "//"@[0]);
        }
    }
    assert(first_index_of(line, ':') == n) by {
        assert(line[n] == ':');
        lemma_first_index_of_is(line, ':', n);
    }
    assert(first_index_of(line, '=') == n + 5) by {
        assert forall|j: int| 0 <= j < n + 5 implies line[j] != '=' by {
            if j < n {
                assert(is_key_char(line[j]));
            }
        }
        assert(line[n + 5] == '=');
        lemma_first_index_of_is(line, '=', n + 5);
    }
    assert(line.subrange(0, n) =~= key);
    assert(line.subrange(n + 1, n + 5) =~= "BOOL"@);
    assert(line.subrange(n + 6, line.len() as int) =~= "ON"@);
}

/// The define of a boolean option.
pub open spec fn boolean_define(key: Seq<char>, b: bool) -> DefineEntryView {
    DefineEntryView { key, value: DefineValueView::Bool(b) }
}

/// The define of a string option.
pub open spec fn string_define(key: Seq<char>, text: Seq<char>) -> DefineEntryView {
    DefineEntryView { key, value: DefineValueView::Str(text) }
}

/// A boolean define is never taken for a string: under the same key, the
/// serialized form of a boolean differs from that of every string, whatever
/// the string says.
pub proof fn law_boolean_define_is_told_apart(key: Seq<char>, b: bool, text: Seq<char>)
    ensures
        boolean_define(key, b).serialized() != string_define(key, text).serialized(),
{
    reveal_strlit(":BOOL");
    reveal_strlit("=");
    let typed = boolean_define(key, b).serialized();
    let plain = string_define(key, text).serialized();
    let n = key.len() as int;
    assert(typed[n] == ':');
    assert(plain[n] == '=');
}

/// The base-ten notation of a number is one or more digits that denote the
/// number.
pub proof fn lemma_decimal_denotes(n: nat)
    ensures
        decimal(n).len() > 0,
        all_digits(decimal(n)),
        digits_value(decimal(n)) == n,
    decreases n,
{
    let written = decimal(n);
    if n < 10 {
        assert(written.drop_last() =~= Seq::<char>::empty());
        assert(written.last() == digit_char(n as int));
        assert(is_ascii_digit(written[0]));
        assert(digit_value(digit_char(n as int)) == n);
        assert(digits_value(written.drop_last()) == 0);
    } else {
        lemma_decimal_denotes(n / 10);
        let front = decimal(n / 10);
        assert(written.drop_last() =~= front);
        assert(written.last() == digit_char((n % 10) as int));
        assert(digit_value(digit_char((n % 10) as int)) == n % 10);
        assert(is_ascii_digit(written.last()));
        assert forall|i: int| 0 <= i < written.len() implies is_ascii_digit(
            #[trigger] written[i],
        ) by {
            if i < front.len() {
                assert(written[i] == front[i]);
            }
        }
    }
}

/// Every non-negative integer that 64 bits hold is an unsigned constant: a
/// string entry whose text is the base-ten notation of `n` gets the constant
/// `n`, whatever its size.
pub proof fn law_every_unsigned_number_is_a_constant(n: u64)
    ensures
        parse_u64(decimal(n as nat)) == Some(n),
        constant_value(TypeHint::Str, decimal(n as nat)) == ConstantValueView::UnsignedInteger(n),
{
    lemma_decimal_denotes(n as nat);
    assert(is_ascii_digit(decimal(n as nat)[0]));
}

/// Rendering is a function of what was ingested: two caches with the same
/// content give the same artifact, name and text, character for character.
pub proof fn law_emission_is_repeatable(first: IngestedCacheView, second: IngestedCacheView)
    requires
        first == second,
    ensures
        emitted(first) == emitted(second),
{
}

/// The same cache lines under the same namespace give the same artifact, or
/// fail in the same way.
pub proof fn law_generation_is_repeatable(
    lines: Seq<Seq<char>>,
    namespace: Seq<char>,
    again: Seq<Seq<char>>,
    namespace_again: Seq<char>,
)
    requires
        lines == again,
        namespace == namespace_again,
    ensures
        cache_artifact(lines, namespace) == cache_artifact(again, namespace_again),
{
}

/// On the x86 family every platform but the one default fails with
/// `IncompatibleTargetPlatform`.
pub proof fn law_x86_has_one_platform(platform: Seq<char>)
    requires
        platform != default_platform(),
    ensures
        include_fragments(ArchitectureClass::X86, platform) == Err::<
            Seq<Seq<char>>,
            ConfigErrorView,
        >(
            ConfigErrorView::IncompatibleTargetPlatform {
                architecture: ArchitectureClass::X86,
                platform,
            },
        ),
{
}

/// On the ARM family a platform that is not among the known ones fails with
/// `UnsupportedPlatform`.
pub proof fn law_unknown_arm_platform_is_unsupported(
    architecture: ArchitectureClass,
    platform: Seq<char>,
)
    requires
        architecture.is_arm(),
        arm_platform_directory(platform) is None,
    ensures
        include_fragments(architecture, platform) == Err::<
            Seq<Seq<char>>,
            ConfigErrorView,
        >(
            ConfigErrorView::UnsupportedPlatform { platform },
        ),
{
}

/// `constant` is what the entry of `line` becomes, and that entry is no
/// bookkeeping of the native build system.
pub open spec fn comes_from(constant: GeneratedConstantView, line: Seq<char>) -> bool {
    parse_line(line) matches Some(entry) && !entry.is_bookkeeping() && constant_with_key(
        entry,
        shouty_snake_case(entry.key),
    ) == Ok::<_, ConfigErrorView>(constant)
}

/// A line whose entry is bookkeeping contributes no constant, and every
/// constant of a cache comes from a line whose entry is no bookkeeping: an
/// entry of a path type, an internal, static or uninitialized entry, or an
/// entry under a reserved key never shows among the constants.
pub proof fn law_bookkeeping_is_never_emitted(lines: Seq<Seq<char>>)
    ensures
        forall|j: int|
            0 <= j < lines.len() && (parse_line(#[trigger] lines[j]) matches Some(entry)
                && entry.is_bookkeeping()) ==> line_constant(lines[j]) == Ok::<
                Option<GeneratedConstantView>,
                ConfigErrorView,
            >(None),
        cache_constants(lines) matches Ok(constants) ==> forall|i: int|
            0 <= i < constants.len() ==> exists|j: int|
                0 <= j < lines.len() && comes_from(#[trigger] constants[i], #[trigger] lines[j]),
    decreases lines.len(),
{
    if lines.len() > 0 {
        let front = lines.drop_last();
        law_bookkeeping_is_never_emitted(front);
        if let Ok(constants) = cache_constants(lines) {
            let earlier = cache_constants(front)->Ok_0;
            assert forall|i: int| 0 <= i < constants.len() implies exists|j: int|
                0 <= j < lines.len() && comes_from(#[trigger] constants[i], #[trigger] lines[j]) by {
                if i < earlier.len() {
                    assert(constants[i] == earlier[i]);
                    let j = choose|j: int|
                        0 <= j < front.len() && comes_from(earlier[i], #[trigger] front[j]);
                    assert(front[j] == lines[j]);
                    assert(comes_from(constants[i], lines[j]));
                } else {
                    assert(comes_from(constants[i], lines[lines.len() - 1]));
                }
            }
        }
    }
}

} // verus!
