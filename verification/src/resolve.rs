//! Resolving the manifest for one build.
//!
//! The manifest declares, in its identity section, the target triple and the
//! platform. For each target it holds a table of options, and within that
//! table one table for each build profile and one for each platform. A build
//! is resolved for a profile and for the target that the build environment
//! asks for; the result holds the options of the profile, of the target and of
//! the platform, as defines and in that order.

use crate::arch::{architecture_of, ArchitectureClass};
use crate::define::{
    lemma_translated_table_wf, translate_into, translated_table, DefineEntry, DefineEntryView,
};
use crate::error::{result_view, ConfigError, ConfigErrorView};
use crate::manifest::{entry_views, lemma_table_view, ManifestNode, ManifestValue};
use crate::text::same_text;
use vstd::prelude::*;
use vstd::string::*;

verus! {

/// What the manifest says about one build.
#[derive(Clone, Debug, PartialEq, Eq)]
pub struct ResolvedBuildConfig {
    pub target: String,
    pub architecture_class: ArchitectureClass,
    pub platform: String,
    pub profile: String,
    pub defines: Vec<DefineEntry>,
}

pub ghost struct ResolvedBuildConfigView {
    pub target: Seq<char>,
    pub architecture_class: ArchitectureClass,
    pub platform: Seq<char>,
    pub profile: Seq<char>,
    pub defines: Seq<DefineEntryView>,
}

impl View for ResolvedBuildConfig {
    type V = ResolvedBuildConfigView;

    open spec fn view(&self) -> ResolvedBuildConfigView {
        ResolvedBuildConfigView {
            target: self.target@,
            architecture_class: self.architecture_class,
            platform: self.platform@,
            profile: self.profile@,
            defines: self.defines.deep_view(),
        }
    }
}

impl DeepView for ResolvedBuildConfig {
    type V = ResolvedBuildConfigView;

    open spec fn deep_view(&self) -> ResolvedBuildConfigView {
        self@
    }
}

impl ResolvedBuildConfigView {
    /// The architecture class is the one that the target triple names, and
    /// every define has a define key.
    pub open spec fn wf(self) -> bool {
        &&& architecture_of(self.target) == Some(self.architecture_class)
        &&& forall|i: int| 0 <= i < self.defines.len() ==> (#[trigger] self.defines[i]).wf()
    }
}

/// The name of the identity section.
pub open spec fn identity_section() -> Seq<char> {
    "fel4"@
}

/// The name of a key of the identity section, as diagnostics write it.
pub open spec fn identity_key(key: Seq<char>) -> Seq<char> {
    "fel4."@ + key
}

/// The name of a table within the table of a target, as diagnostics write it.
pub open spec fn sub_section(target: Seq<char>, name: Seq<char>) -> Seq<char> {
    target + "."@ + name
}

/// The text that the identity section declares under `key`. The key must be
/// there, and its value must be text.
pub open spec fn declared_text(identity: ManifestNode, key: Seq<char>) -> Result<
    Seq<char>,
    ConfigErrorView,
> {
    match identity.get(key) {
        None => Err(ConfigErrorView::MissingSection { section: identity_key(key) }),
        Some(ManifestNode::Text(text)) => Ok(text),
        Some(_) => Err(ConfigErrorView::ManifestMalformed { detail: identity_key(key) }),
    }
}

/// The defines of `first`, then those of `second`; the failure of `first`, or
/// else that of `second`, where one fails.
pub open spec fn followed_by(
    first: Result<Seq<DefineEntryView>, ConfigErrorView>,
    second: Result<Seq<DefineEntryView>, ConfigErrorView>,
) -> Result<Seq<DefineEntryView>, ConfigErrorView> {
    match first {
        Err(error) => Err(error),
        Ok(head) => match second {
            Err(error) => Err(error),
            Ok(tail) => Ok(head + tail),
        },
    }
}

/// The defines of a build: the options of the profile, then those of the
/// target, then those of the platform.
pub open spec fn build_defines(
    profile_options: Seq<(Seq<char>, ManifestNode)>,
    target_options: Seq<(Seq<char>, ManifestNode)>,
    platform_options: Seq<(Seq<char>, ManifestNode)>,
) -> Result<Seq<DefineEntryView>, ConfigErrorView> {
    followed_by(
        followed_by(translated_table(profile_options), translated_table(target_options)),
        translated_table(platform_options),
    )
}

/// What the manifest says about a build, once target and platform are read
/// from the identity section.
///
/// The target asked for must be the target declared. The manifest must hold a
/// section for the target, and the target must name an architecture. The
/// section must hold a table for the profile and one for the platform. The
/// options must translate into defines.
pub open spec fn resolved_with(
    manifest: ManifestNode,
    profile: Seq<char>,
    requested_target: Seq<char>,
    target: Seq<char>,
    platform: Seq<char>,
) -> Result<ResolvedBuildConfigView, ConfigErrorView> {
    if requested_target != target {
        Err(ConfigErrorView::TargetMismatch { requested: requested_target, declared: target })
    } else {
        match manifest.get(target) {
            None => Err(ConfigErrorView::MissingSection { section: target }),
            Some(section) => match architecture_of(target) {
                None => Err(
                    ConfigErrorView::ManifestMalformed { detail: identity_key("target"@) },
                ),
                Some(architecture_class) => match section.table(profile) {
                    None => Err(
                        ConfigErrorView::MissingSection { section: sub_section(target, profile) },
                    ),
                    Some(profile_options) => match section.table(platform) {
                        None => Err(
                            ConfigErrorView::MissingSection {
                                section: sub_section(target, platform),
                            },
                        ),
                        Some(platform_options) => match build_defines(
                            profile_options,
                            section->Table_0,
                            platform_options,
                        ) {
                            Err(error) => Err(error),
                            Ok(defines) => Ok(
                                ResolvedBuildConfigView {
                                    target,
                                    architecture_class,
                                    platform,
                                    profile,
                                    defines,
                                },
                            ),
                        },
                    },
                },
            },
        }
    }
}

/// What the manifest says about the build of `profile` for `requested_target`.
pub open spec fn resolved(
    manifest: ManifestNode,
    profile: Seq<char>,
    requested_target: Seq<char>,
) -> Result<ResolvedBuildConfigView, ConfigErrorView> {
    match manifest.get(identity_section()) {
        None => Err(ConfigErrorView::MissingSection { section: identity_section() }),
        Some(identity) => match declared_text(identity, "target"@) {
            Err(error) => Err(error),
            Ok(target) => match declared_text(identity, "platform"@) {
                Err(error) => Err(error),
                Ok(platform) => resolved_with(
                    manifest,
                    profile,
                    requested_target,
                    target,
                    platform,
                ),
            },
        },
    }
}

/// `head`, then a dot, then `tail`.
fn dotted(head: &str, tail: &str) -> (r: String)
    ensures
        r@ == head@ + "."@ + tail@,
{
    let mut out = String::from_str(head);
    out.append(".");
    out.append(tail);
    out
}

/// Reads a key of the identity section.
fn read_declared<'a>(identity: &'a ManifestValue, key: &str) -> (r: Result<&'a String, ConfigError>)
    ensures
        match r {
            Ok(text) => declared_text(identity@, key@) == Ok::<Seq<char>, ConfigErrorView>(text@),
            Err(error) => declared_text(identity@, key@) == Err::<Seq<char>, ConfigErrorView>(
                error@,
            ),
        },
{
    proof {
        reveal_strlit("fel4.");
        reveal_strlit("fel4");
        reveal_strlit(".");
        assert("fel4"@ + "."@ =~= "fel4."@);
    }
    match identity.get(key) {
        None => Err(ConfigError::MissingSection { section: dotted("fel4", key) }),
        Some(ManifestValue::Text(text)) => Ok(text),
        Some(_) => Err(ConfigError::ManifestMalformed { detail: dotted("fel4", key) }),
    }
}

/// Resolves the manifest for the build of `profile` for `requested_target`.
pub fn resolve_build_config(manifest: &ManifestValue, profile: &str, requested_target: &str) -> (r:
    Result<ResolvedBuildConfig, ConfigError>)
    ensures
        result_view(r) == resolved(manifest@, profile@, requested_target@),
        r matches Ok(config) ==> config@.wf(),
{
    let identity = match manifest.get("fel4") {
        Some(identity) => identity,
        None => {
            return Err(ConfigError::MissingSection { section: String::from_str("fel4") });
        },
    };
    let target = match read_declared(identity, "target") {
        Ok(target) => target,
        Err(error) => {
            return Err(error);
        },
    };
    let platform = match read_declared(identity, "platform") {
        Ok(platform) => platform,
        Err(error) => {
            return Err(error);
        },
    };
    if !same_text(requested_target, target.as_str()) {
        return Err(
            ConfigError::TargetMismatch {
                requested: String::from_str(requested_target),
                declared: target.clone(),
            },
        );
    }
    let section = match manifest.get(target.as_str()) {
        Some(section) => section,
        None => {
            return Err(ConfigError::MissingSection { section: target.clone() });
        },
    };
    let architecture_class = match ArchitectureClass::from_target(target.as_str()) {
        Some(architecture_class) => architecture_class,
        None => {
            proof {
                reveal_strlit("fel4.");
                reveal_strlit("fel4");
                reveal_strlit(".");
                assert("fel4"@ + "."@ =~= "fel4."@);
            }
            return Err(ConfigError::ManifestMalformed { detail: dotted("fel4", "target") });
        },
    };
    let profile_options = match section.table(profile) {
        Some(options) => options,
        None => {
            return Err(
                ConfigError::MissingSection { section: dotted(target.as_str(), profile) },
            );
        },
    };
    let platform_options = match section.table(platform.as_str()) {
        Some(options) => options,
        None => {
            return Err(
                ConfigError::MissingSection { section: dotted(target.as_str(), platform.as_str()) },
            );
        },
    };
    let target_options = match section {
        ManifestValue::Table(options) => options,
        _ => {
            return Err(ConfigError::MissingSection { section: target.clone() });
        },
    };
    proof {
        lemma_table_view(*target_options);
        lemma_translated_table_wf(entry_views(profile_options@));
        lemma_translated_table_wf(entry_views(target_options@));
        lemma_translated_table_wf(entry_views(platform_options@));
    }
    let mut defines: Vec<DefineEntry> = Vec::new();
    proof {
        assert(defines.deep_view() =~= Seq::<DefineEntryView>::empty());
    }
    match translate_into(&mut defines, profile_options) {
        Ok(_) => {},
        Err(error) => {
            return Err(error);
        },
    }
    match translate_into(&mut defines, target_options) {
        Ok(_) => {},
        Err(error) => {
            return Err(error);
        },
    }
    match translate_into(&mut defines, platform_options) {
        Ok(_) => {},
        Err(error) => {
            return Err(error);
        },
    }
    proof {
        let first = translated_table(entry_views(profile_options@))->Ok_0;
        let second = translated_table(entry_views(target_options@))->Ok_0;
        let third = translated_table(entry_views(platform_options@))->Ok_0;
        assert(defines.deep_view() =~= (first + second) + third);
    }
    Ok(
        ResolvedBuildConfig {
            target: target.clone(),
            architecture_class,
            platform: platform.clone(),
            profile: String::from_str(profile),
            defines,
        },
    )
}

} // verus!
