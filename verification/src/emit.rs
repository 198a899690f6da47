//! Rendering what was taken from the cache: the module of typed constants, and
//! the lines that tell the host build which features are on and when to run
//! again.
//!
//! Everything here is a function of its arguments, so rendering the same
//! constants twice gives the same text, character for character.

use crate::cache::{
    ingest, ingested, ConstantValue, ConstantValueView, GeneratedConstant, GeneratedConstantView,
    IngestedCache, IngestedCacheView,
};
use crate::casing::{shouty_snake_case, to_shouty_snake_case};
use crate::error::{result_view, ConfigError, ConfigErrorView};
use crate::text::{decimal, push_decimal};
use vstd::prelude::*;
use vstd::string::*;

verus! {

/// The name of the module that holds the constants of a namespace.
pub open spec fn module_name(namespace: Seq<char>) -> Seq<char> {
    namespace + "_config"@
}

/// The name of the file that holds the module of a namespace.
pub open spec fn artifact_file_name(namespace: Seq<char>) -> Seq<char> {
    namespace + "_config.rs"@
}

/// Where the module of a namespace is written below an output directory.
pub open spec fn artifact_path(output_dir: Seq<char>, namespace: Seq<char>) -> Seq<char> {
    output_dir + "/"@ + artifact_file_name(namespace)
}

/// The declaration of one constant: a line of the module, indented, with the
/// type that the value calls for.
pub open spec fn constant_declaration(constant: GeneratedConstantView) -> Seq<char> {
    match constant.value {
        ConstantValueView::Bool(b) => "    pub const "@ + constant.key + ": bool = "@ + (if b {
            "true"@
        } else {
            "false"@
        }) + ";\n"@,
        ConstantValueView::UnsignedInteger(n) => "    pub const "@ + constant.key
            + ": usize = "@ + decimal(n as nat) + ";\n"@,
        ConstantValueView::Str(s) => "    pub const "@ + constant.key + ": &'static str = \""@ + s
            + "\";\n"@,
    }
}

/// The declarations of the constants, one after another.
pub open spec fn declarations(constants: Seq<GeneratedConstantView>) -> Seq<char>
    decreases constants.len(),
{
    if constants.len() == 0 {
        Seq::empty()
    } else {
        declarations(constants.drop_last()) + constant_declaration(constants.last())
    }
}

/// The text of the generated module.
pub open spec fn module_text(namespace: Seq<char>, constants: Seq<GeneratedConstantView>) -> Seq<
    char,
> {
    "#[allow(dead_code)]\nmod "@ + module_name(namespace) + " {\n"@ + declarations(constants)
        + "}\n"@
}

/// The line that tells the host build that a feature is on.
pub open spec fn feature_signal(name: Seq<char>) -> Seq<char> {
    "cargo:rustc-cfg=feature=\""@ + name + "\""@
}

/// The line that tells the host build to run again when a path changes.
pub open spec fn rebuild_signal(path: Seq<char>) -> Seq<char> {
    "cargo:rerun-if-changed="@ + path
}

/// The lines for the host build after a module was generated: one for each
/// feature that is on, then the rebuild lines for the cache and for the
/// directory of the module.
pub open spec fn host_signals(
    features: Seq<Seq<char>>,
    cache_path: Seq<char>,
    output_dir: Seq<char>,
) -> Seq<Seq<char>> {
    features.map_values(|name: Seq<char>| feature_signal(name)) + seq![
        rebuild_signal(cache_path),
        rebuild_signal(output_dir),
    ]
}

/// The name of the environment variable through which the native build hands
/// on the path of its cache for a namespace.
pub open spec fn cache_path_variable(namespace: Seq<char>) -> Seq<char> {
    "DEP_"@ + shouty_snake_case(namespace) + "_CMAKE_CACHE_PATH"@
}

/// A generated module, ready to be written.
#[derive(Clone, Debug, PartialEq, Eq)]
pub struct GeneratedArtifact {
    pub file_name: String,
    pub contents: String,
    pub features: Vec<String>,
}

pub ghost struct GeneratedArtifactView {
    pub file_name: Seq<char>,
    pub contents: Seq<char>,
    pub features: Seq<Seq<char>>,
}

impl View for GeneratedArtifact {
    type V = GeneratedArtifactView;

    open spec fn view(&self) -> GeneratedArtifactView {
        GeneratedArtifactView {
            file_name: self.file_name@,
            contents: self.contents@,
            features: self.features.deep_view(),
        }
    }
}

impl DeepView for GeneratedArtifact {
    type V = GeneratedArtifactView;

    open spec fn deep_view(&self) -> GeneratedArtifactView {
        self@
    }
}

/// The artifact that an ingested cache gives.
pub open spec fn emitted(cache: IngestedCacheView) -> GeneratedArtifactView {
    GeneratedArtifactView {
        file_name: artifact_file_name(cache.namespace),
        contents: module_text(cache.namespace, cache.constants),
        features: cache.features,
    }
}

/// The artifact that the lines of a cache give under a namespace.
pub open spec fn cache_artifact(lines: Seq<Seq<char>>, namespace: Seq<char>) -> Result<
    GeneratedArtifactView,
    ConfigErrorView,
> {
    match ingested(lines, namespace) {
        Ok(cache) => Ok(emitted(cache)),
        Err(error) => Err(error),
    }
}

/// Appends the declaration of a constant to the text of a module.
pub fn push_declaration(out: &mut String, constant: &GeneratedConstant)
    ensures
        final(out)@ == old(out)@ + constant_declaration(constant@),
{
    let ghost start = out@;
    out.append("    pub const ");
    out.append(constant.key.as_str());
    match &constant.value {
        ConstantValue::Bool(b) => {
            out.append(": bool = ");
            if *b {
                out.append("true");
            } else {
                out.append("false");
            }
        },
        ConstantValue::UnsignedInteger(n) => {
            out.append(": usize = ");
            push_decimal(out, *n);
        },
        ConstantValue::Str(s) => {
            out.append(": &'static str = \"");
            out.append(s.as_str());
        },
    }
    match &constant.value {
        ConstantValue::Str(_) => {
            out.append("\";\n");
        },
        _ => {
            out.append(";\n");
        },
    }
    proof {
        assert(out@ =~= start + constant_declaration(constant@));
    }
}

/// The text of the module that holds the constants under a namespace.
pub fn render_module(namespace: &str, constants: &Vec<GeneratedConstant>) -> (r: String)
    ensures
        r@ == module_text(namespace@, constants.deep_view()),
{
    let mut out = String::from_str("#[allow(dead_code)]\nmod ");
    out.append(namespace);
    out.append("_config");
    out.append(" {\n");
    let ghost head = out@;
    let ghost all = constants.deep_view();
    let mut i: usize = 0;
    proof {
        assert(head =~= "#[allow(dead_code)]\nmod "@ + module_name(namespace@) + " {\n"@);
        assert(all.subrange(0, 0) =~= Seq::<GeneratedConstantView>::empty());
    }
    while i < constants.len()
        invariant
            i <= constants@.len(),
            all == constants.deep_view(),
            out@ == head + declarations(all.subrange(0, i as int)),
        decreases constants@.len() - i,
    {
        let ghost before = out@;
        push_declaration(&mut out, &constants[i]);
        proof {
            let next = all.subrange(0, i + 1);
            assert(next.drop_last() =~= all.subrange(0, i as int));
            assert(next.last() == constants@[i as int]@);
            assert(out@ =~= head + declarations(next));
        }
        i = i + 1;
    }
    proof {
        assert(all.subrange(0, i as int) =~= all);
    }
    out.append("}\n");
    out
}

/// The name of the file for the module of a namespace.
pub fn file_name(namespace: &str) -> (r: String)
    ensures
        r@ == artifact_file_name(namespace@),
{
    let mut out = String::from_str(namespace);
    out.append("_config.rs");
    out
}

/// Where to write the module of a namespace below an output directory.
pub fn path_of_artifact(output_dir: &str, namespace: &str) -> (r: String)
    ensures
        r@ == artifact_path(output_dir@, namespace@),
{
    let mut out = String::from_str(output_dir);
    out.append("/");
    out.append(namespace);
    out.append("_config.rs");
    proof {
        assert(out@ =~= artifact_path(output_dir@, namespace@));
    }
    out
}

/// Renders what was taken from a cache.
pub fn emit(cache: &IngestedCache) -> (r: GeneratedArtifact)
    ensures
        r@ == emitted(cache@),
{
    let mut features: Vec<String> = Vec::new();
    let mut i: usize = 0;
    while i < cache.features.len()
        invariant
            i <= cache.features@.len(),
            features@.len() == i,
            forall|k: int| 0 <= k < i ==> features@[k]@ == cache.features@[k]@,
        decreases cache.features@.len() - i,
    {
        features.push(cache.features[i].clone());
        i = i + 1;
    }
    proof {
        assert(features.deep_view() =~= cache.features.deep_view());
    }
    GeneratedArtifact {
        file_name: file_name(cache.namespace.as_str()),
        contents: render_module(cache.namespace.as_str(), &cache.constants),
        features,
    }
}

/// Turns the lines of the native build's cache into the module of constants
/// for a namespace, with the features that the cache switches on.
pub fn process_cmake_cache(namespace: &str, cache_lines: &Vec<String>) -> (r: Result<
    GeneratedArtifact,
    ConfigError,
>)
    ensures
        result_view(r) == cache_artifact(cache_lines.deep_view(), namespace@),
{
    match ingest(cache_lines, namespace) {
        Ok(cache) => Ok(emit(&cache)),
        Err(error) => Err(error),
    }
}

/// The line that tells the host build that a feature is on.
pub fn signal_feature(name: &str) -> (r: String)
    ensures
        r@ == feature_signal(name@),
{
    let mut out = String::from_str("cargo:rustc-cfg=feature=\"");
    out.append(name);
    out.append("\"");
    out
}

/// The line that tells the host build to run again when `path` changes.
pub fn signal_rebuild(path: &str) -> (r: String)
    ensures
        r@ == rebuild_signal(path@),
{
    let mut out = String::from_str("cargo:rerun-if-changed=");
    out.append(path);
    out
}

/// The lines to print for the host build once a module was generated.
pub fn signals_for_host(features: &Vec<String>, cache_path: &str, output_dir: &str) -> (r: Vec<
    String,
>)
    ensures
        r.deep_view() == host_signals(features.deep_view(), cache_path@, output_dir@),
{
    let mut out: Vec<String> = Vec::new();
    let mut i: usize = 0;
    while i < features.len()
        invariant
            i <= features@.len(),
            out@.len() == i,
            forall|k: int| 0 <= k < i ==> out@[k]@ == feature_signal(features@[k]@),
        decreases features@.len() - i,
    {
        out.push(signal_feature(features[i].as_str()));
        i = i + 1;
    }
    out.push(signal_rebuild(cache_path));
    out.push(signal_rebuild(output_dir));
    proof {
        assert(out.deep_view() =~= host_signals(features.deep_view(), cache_path@, output_dir@));
    }
    out
}

/// The name of the environment variable that holds the path of the cache for
/// a namespace, given the SHOUTY_SNAKE_CASE form of the namespace.
pub fn variable_with_namespace(shouty_namespace: &str) -> (r: String)
    ensures
        r@ == "DEP_"@ + shouty_namespace@ + "_CMAKE_CACHE_PATH"@,
{
    let mut out = String::from_str("DEP_");
    out.append(shouty_namespace);
    out.append("_CMAKE_CACHE_PATH");
    out
}

/// The name of the environment variable through which the native build hands
/// on the path of its cache for a namespace.
pub fn variable_of_cache_path(namespace: &str) -> (r: String)
    ensures
        r@ == cache_path_variable(namespace@),
{
    variable_with_namespace(to_shouty_snake_case(namespace).as_str())
}

} // verus!
