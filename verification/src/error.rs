//! The ways in which configuration can fail.
//!
//! Every failure is final: nothing in this crate retries or carries on with a
//! partial result. Each error names the section, key or path at fault so that
//! the diagnostic can tell a person what to correct.

use crate::arch::ArchitectureClass;
use vstd::prelude::*;
use vstd::string::*;

verus! {

#[derive(Clone, Debug, PartialEq, Eq)]
pub enum ConfigError {
    /// The manifest file could not be opened or read.
    ManifestUnreadable { path: String },
    /// The manifest is not structured data of the expected shape.
    ManifestMalformed { detail: String },
    /// A required section or key is absent from the manifest.
    MissingSection { section: String },
    /// The build environment asks for another target than the manifest declares.
    TargetMismatch { requested: String, declared: String },
    /// An option value has no form as a native-build define.
    TypeCoercionError { key: String },
    /// The platform is not known for the architecture.
    UnsupportedPlatform { platform: String },
    /// The platform contradicts the architecture.
    IncompatibleTargetPlatform { architecture: ArchitectureClass, platform: String },
    /// A cache key does not normalize to an identifier.
    InvalidGeneratedIdentifier { key: String },
    /// The native build's cache could not be opened or read.
    CacheUnreadable { path: String },
    /// The generated module could not be written.
    ArtifactWriteFailure { path: String },
    /// The native build or its toolchain failed.
    SubprocessFailure { detail: String },
}

/// The mathematical content of a [`ConfigError`].
pub ghost enum ConfigErrorView {
    ManifestUnreadable { path: Seq<char> },
    ManifestMalformed { detail: Seq<char> },
    MissingSection { section: Seq<char> },
    TargetMismatch { requested: Seq<char>, declared: Seq<char> },
    TypeCoercionError { key: Seq<char> },
    UnsupportedPlatform { platform: Seq<char> },
    IncompatibleTargetPlatform { architecture: ArchitectureClass, platform: Seq<char> },
    InvalidGeneratedIdentifier { key: Seq<char> },
    CacheUnreadable { path: Seq<char> },
    ArtifactWriteFailure { path: Seq<char> },
    SubprocessFailure { detail: Seq<char> },
}

impl View for ConfigError {
    type V = ConfigErrorView;

    open spec fn view(&self) -> ConfigErrorView {
        match self {
            ConfigError::ManifestUnreadable { path } => ConfigErrorView::ManifestUnreadable {
                path: path@,
            },
            ConfigError::ManifestMalformed { detail } => ConfigErrorView::ManifestMalformed {
                detail: detail@,
            },
            ConfigError::MissingSection { section } => ConfigErrorView::MissingSection {
                section: section@,
            },
            ConfigError::TargetMismatch { requested, declared } => ConfigErrorView::TargetMismatch {
                requested: requested@,
                declared: declared@,
            },
            ConfigError::TypeCoercionError { key } => ConfigErrorView::TypeCoercionError {
                key: key@,
            },
            ConfigError::UnsupportedPlatform { platform } => ConfigErrorView::UnsupportedPlatform {
                platform: platform@,
            },
            ConfigError::IncompatibleTargetPlatform {
                architecture,
                platform,
            } => ConfigErrorView::IncompatibleTargetPlatform {
                architecture: *architecture,
                platform: platform@,
            },
            ConfigError::InvalidGeneratedIdentifier {
                key,
            } => ConfigErrorView::InvalidGeneratedIdentifier { key: key@ },
            ConfigError::CacheUnreadable { path } => ConfigErrorView::CacheUnreadable {
                path: path@,
            },
            ConfigError::ArtifactWriteFailure { path } => ConfigErrorView::ArtifactWriteFailure {
                path: path@,
            },
            ConfigError::SubprocessFailure { detail } => ConfigErrorView::SubprocessFailure {
                detail: detail@,
            },
        }
    }
}

impl DeepView for ConfigError {
    type V = ConfigErrorView;

    open spec fn deep_view(&self) -> ConfigErrorView {
        self@
    }
}

impl ConfigErrorView {
    /// The diagnostic shown to the person who has to correct the build.
    pub open spec fn message(self) -> Seq<char> {
        match self {
            ConfigErrorView::ManifestUnreadable { path } => "cannot read the manifest at "@ + path,
            ConfigErrorView::ManifestMalformed { detail } => "the manifest is malformed: "@
                + detail,
            ConfigErrorView::MissingSection { section } => "the manifest lacks the section "@
                + section,
            ConfigErrorView::TargetMismatch { requested, declared } => "the build targets "@
                + requested + " but the manifest declares "@ + declared,
            ConfigErrorView::TypeCoercionError { key } => "the option "@ + key
                + " has a value that no define can carry"@,
            ConfigErrorView::UnsupportedPlatform { platform } => "the platform "@ + platform
                + " is not supported"@,
            ConfigErrorView::IncompatibleTargetPlatform { architecture, platform } => "the platform "@
                + platform + " cannot be combined with the architecture "@ + architecture.name(),
            ConfigErrorView::InvalidGeneratedIdentifier { key } => "the cache key "@ + key
                + " does not give a valid identifier"@,
            ConfigErrorView::CacheUnreadable { path } => "cannot read the build cache at "@ + path,
            ConfigErrorView::ArtifactWriteFailure { path } => "cannot write the generated module at "@
                + path,
            ConfigErrorView::SubprocessFailure { detail } => "the native build failed: "@ + detail,
        }
    }
}

/// The result of a fallible stage, seen through the views of both outcomes.
pub open spec fn result_view<T: DeepView>(r: Result<T, ConfigError>) -> Result<
    T::V,
    ConfigErrorView,
> {
    match r {
        Ok(value) => Ok(value.deep_view()),
        Err(error) => Err(error@),
    }
}

/// `head`, then `tail`.
fn join2(head: &str, tail: &str) -> (r: String)
    ensures
        r@ == head@ + tail@,
{
    let mut out = String::from_str(head);
    out.append(tail);
    out
}

/// `head`, then `middle`, then `tail`.
fn join3(head: &str, middle: &str, tail: &str) -> (r: String)
    ensures
        r@ == head@ + middle@ + tail@,
{
    let mut out = String::from_str(head);
    out.append(middle);
    out.append(tail);
    out
}

impl ConfigError {
    /// The diagnostic for this error; it names the section, key or path at fault.
    pub fn message(&self) -> (r: String)
        ensures
            r@ == self@.message(),
    {
        match self {
            ConfigError::ManifestUnreadable { path } => join2("cannot read the manifest at ", path.as_str()),
            ConfigError::ManifestMalformed { detail } => join2("the manifest is malformed: ", detail.as_str()),
            ConfigError::MissingSection { section } => join2("the manifest lacks the section ", section.as_str()),
            ConfigError::TargetMismatch { requested, declared } => {
                let mut out = join3(
                    "the build targets ",
                    requested.as_str(),
                    " but the manifest declares ",
                );
                out.append(declared.as_str());
                out
            },
            ConfigError::TypeCoercionError { key } => join3(
                "the option ",
                key.as_str(),
                " has a value that no define can carry",
            ),
            ConfigError::UnsupportedPlatform { platform } => join3(
                "the platform ",
                platform.as_str(),
                " is not supported",
            ),
            ConfigError::IncompatibleTargetPlatform { architecture, platform } => {
                let mut out = join3(
                    "the platform ",
                    platform.as_str(),
                    " cannot be combined with the architecture ",
                );
                out.append(architecture.name_str());
                out
            },
            ConfigError::InvalidGeneratedIdentifier { key } => join3(
                "the cache key ",
                key.as_str(),
                " does not give a valid identifier",
            ),
            ConfigError::CacheUnreadable { path } => join2("cannot read the build cache at ", path.as_str()),
            ConfigError::ArtifactWriteFailure { path } => join2("cannot write the generated module at ", path.as_str()),
            ConfigError::SubprocessFailure { detail } => join2("the native build failed: ", detail.as_str()),
        }
    }
}

} // verus!
