//! Everything that has to be settled before the native build may start.
//!
//! The native build is expensive, so nothing of it is begun until the
//! manifest is resolved, its options are translated and the header search
//! path is derived. Any failure among these stops the build.

use crate::arch::ArchitectureClass;
use crate::define::{serialize_all, serialized_all};
use crate::error::{result_view, ConfigError, ConfigErrorView};
use crate::headers::{include_fragments, include_set, IncludeSet};
use crate::manifest::{ManifestNode, ManifestValue};
use crate::resolve::{resolve_build_config, resolved, ResolvedBuildConfig, ResolvedBuildConfigView};
use vstd::prelude::*;
use vstd::string::*;

verus! {

/// What is handed to the native build and to the binding generator.
#[derive(Clone, Debug, PartialEq, Eq)]
pub struct BuildPlan {
    pub config: ResolvedBuildConfig,
    /// The defines of `config`, each as the native build reads it.
    pub defines: Vec<String>,
    pub include_set: IncludeSet,
}

pub ghost struct BuildPlanView {
    pub config: ResolvedBuildConfigView,
    pub defines: Seq<Seq<char>>,
    pub include_set: Seq<Seq<char>>,
}

impl View for BuildPlan {
    type V = BuildPlanView;

    open spec fn view(&self) -> BuildPlanView {
        BuildPlanView {
            config: self.config@,
            defines: self.defines.deep_view(),
            include_set: self.include_set@,
        }
    }
}

impl DeepView for BuildPlan {
    type V = BuildPlanView;

    open spec fn deep_view(&self) -> BuildPlanView {
        self@
    }
}

/// The plan for the build of `profile` for `requested_target`: the resolved
/// manifest, its defines in serialized form, and the header search path for
/// its architecture and platform. A manifest that does not resolve fails the
/// plan, and so does a platform without a search path.
pub open spec fn planned(
    manifest: ManifestNode,
    profile: Seq<char>,
    requested_target: Seq<char>,
) -> Result<BuildPlanView, ConfigErrorView> {
    match resolved(manifest, profile, requested_target) {
        Err(error) => Err(error),
        Ok(config) => match include_fragments(config.architecture_class, config.platform) {
            Err(error) => Err(error),
            Ok(fragments) => Ok(
                BuildPlanView {
                    config,
                    defines: serialized_all(config.defines),
                    include_set: fragments,
                },
            ),
        },
    }
}

/// Plans the build of `profile` for `requested_target`.
pub fn plan_build(manifest: &ManifestValue, profile: &str, requested_target: &str) -> (r: Result<
    BuildPlan,
    ConfigError,
>)
    ensures
        result_view(r) == planned(manifest@, profile@, requested_target@),
        r matches Ok(plan) ==> plan.config@.wf() && plan.include_set.wf(),
{
    let config = match resolve_build_config(manifest, profile, requested_target) {
        Ok(config) => config,
        Err(error) => {
            return Err(error);
        },
    };
    let include_set = match include_set(config.architecture_class, config.platform.as_str()) {
        Ok(include_set) => include_set,
        Err(error) => {
            return Err(error);
        },
    };
    let defines = serialize_all(&config.defines);
    Ok(BuildPlan { config, defines, include_set })
}

/// The settings that every native build gets, around the defines of its plan:
/// first the toolchain file and the path of the kernel sources, last the
/// compiler flags, which are cleared because the kernel sets its own.
pub open spec fn native_defines(kernel_path: Seq<char>, defines: Seq<Seq<char>>) -> Seq<
    Seq<char>,
> {
    seq!["CMAKE_TOOLCHAIN_FILE="@ + kernel_path + "/gcc.cmake"@, "KERNEL_PATH="@ + kernel_path]
        + defines + seq!["CMAKE_C_FLAGS="@, "CMAKE_CXX_FLAGS="@]
}

/// The argument that puts one fragment of the search path, below the staging
/// directory of the native build, before the binding generator.
pub open spec fn search_argument(staging: Seq<char>, fragment: Seq<char>) -> Seq<char> {
    "-I"@ + staging + "/"@ + fragment
}

/// The arguments of the binding generator: on 32-bit ARM the hardware
/// floating-point convention, then the search path in its order.
pub open spec fn binding_arguments(
    architecture: ArchitectureClass,
    staging: Seq<char>,
    fragments: Seq<Seq<char>>,
) -> Seq<Seq<char>> {
    (if architecture == ArchitectureClass::Arm32 {
        seq!["-mfloat-abi=hard"@]
    } else {
        Seq::<Seq<char>>::empty()
    }) + fragments.map_values(|fragment: Seq<char>| search_argument(staging, fragment))
}

/// The defines to hand to the native build whose kernel sources lie at
/// `kernel_path`.
pub fn defines_for_native_build(kernel_path: &str, defines: &Vec<String>) -> (r: Vec<String>)
    ensures
        r.deep_view() == native_defines(kernel_path@, defines.deep_view()),
{
    let mut toolchain = String::from_str("CMAKE_TOOLCHAIN_FILE=");
    toolchain.append(kernel_path);
    toolchain.append("/gcc.cmake");
    let mut sources = String::from_str("KERNEL_PATH=");
    sources.append(kernel_path);
    let mut out: Vec<String> = Vec::new();
    out.push(toolchain);
    out.push(sources);
    let mut i: usize = 0;
    while i < defines.len()
        invariant
            i <= defines@.len(),
            out@.len() == i + 2,
            out@[0]@ == "CMAKE_TOOLCHAIN_FILE="@ + kernel_path@ + "/gcc.cmake"@,
            out@[1]@ == "KERNEL_PATH="@ + kernel_path@,
            forall|k: int| 0 <= k < i ==> out@[k + 2]@ == defines@[k]@,
        decreases defines@.len() - i,
    {
        out.push(defines[i].clone());
        i = i + 1;
    }
    out.push(String::from_str("CMAKE_C_FLAGS="));
    out.push(String::from_str("CMAKE_CXX_FLAGS="));
    proof {
        assert(out.deep_view() =~= native_defines(kernel_path@, defines.deep_view()));
    }
    out
}

/// The arguments to hand to the binding generator, for headers staged at
/// `staging`.
pub fn arguments_for_bindings(
    architecture: ArchitectureClass,
    staging: &str,
    include_set: &IncludeSet,
) -> (r: Vec<String>)
    ensures
        r.deep_view() == binding_arguments(architecture, staging@, include_set@),
{
    let mut out: Vec<String> = Vec::new();
    let lead: usize = match architecture {
        ArchitectureClass::Arm32 => {
            out.push(String::from_str("-mfloat-abi=hard"));
            1
        },
        _ => 0,
    };
    let mut i: usize = 0;
    while i < include_set.fragments.len()
        invariant
            i <= include_set.fragments@.len(),
            lead <= 1,
            lead == 1 <==> architecture == ArchitectureClass::Arm32,
            out@.len() == lead + i,
            lead == 1 ==> out@[0]@ == "-mfloat-abi=hard"@,
            forall|k: int|
                0 <= k < i ==> out@[lead + k]@ == search_argument(
                    staging@,
                    include_set.fragments@[k]@,
                ),
        decreases include_set.fragments@.len() - i,
    {
        let mut argument = String::from_str("-I");
        argument.append(staging);
        argument.append("/");
        argument.append(include_set.fragments[i].as_str());
        out.push(argument);
        i = i + 1;
    }
    proof {
        assert(out.deep_view() =~= binding_arguments(architecture, staging@, include_set@));
    }
    out
}

} // verus!
