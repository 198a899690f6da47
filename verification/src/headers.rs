//! The header search path of the binding generator.
//!
//! The kernel keeps its headers in directories named after the architecture,
//! the sub-architecture, the word width and the platform. A platform's
//! directory is often not named like the platform, so the platforms are listed
//! with their directories, and a platform that is not listed is refused.

use crate::arch::ArchitectureClass;
use crate::error::{result_view, ConfigError, ConfigErrorView};
use crate::text::same_text;
use vstd::prelude::*;
use vstd::string::*;

verus! {

/// The only platform of the x86 family.
pub open spec fn default_platform() -> Seq<char> {
    "pc99"@
}

/// The directory that holds the headers of an ARM platform, for the platforms
/// that are known.
pub open spec fn arm_platform_directory(platform: Seq<char>) -> Option<Seq<char>> {
    if platform == "sabre"@ {
        Some("imx6"@)
    } else if platform == "exynos5410"@ || platform == "exynos5422"@ || platform == "exynos5250"@ {
        Some("exynos5"@)
    } else if platform == "imx7sabre"@ {
        Some("imx7"@)
    } else if platform == "rpi3"@ {
        Some("bcm2837"@)
    } else {
        None
    }
}

impl ArchitectureClass {
    /// The directory of the kernel architecture.
    pub open spec fn kernel_directory(self) -> Seq<char> {
        match self {
            ArchitectureClass::X86 => "x86"@,
            ArchitectureClass::Arm32 => "arm"@,
            ArchitectureClass::Arm64 => "arm"@,
        }
    }

    /// The directory of the sub-architecture.
    pub open spec fn sub_directory(self) -> Seq<char> {
        match self {
            ArchitectureClass::X86 => "x86_64"@,
            ArchitectureClass::Arm32 => "aarch32"@,
            ArchitectureClass::Arm64 => "aarch64"@,
        }
    }

    /// The directory of the word width.
    pub open spec fn width_directory(self) -> Seq<char> {
        match self {
            ArchitectureClass::X86 => "64"@,
            ArchitectureClass::Arm32 => "32"@,
            ArchitectureClass::Arm64 => "64"@,
        }
    }
}

/// The directory that holds the headers of a platform.
///
/// The x86 family has one platform, which names its own directory; any other
/// platform contradicts the architecture. An ARM platform must be one of the
/// known ones.
pub open spec fn platform_directory(architecture: ArchitectureClass, platform: Seq<char>) -> Result<
    Seq<char>,
    ConfigErrorView,
> {
    if architecture == ArchitectureClass::X86 {
        if platform == default_platform() {
            Ok(platform)
        } else {
            Err(ConfigErrorView::IncompatibleTargetPlatform { architecture, platform })
        }
    } else {
        match arm_platform_directory(platform) {
            Some(directory) => Ok(directory),
            None => Err(ConfigErrorView::UnsupportedPlatform { platform }),
        }
    }
}

/// The search path with a given platform directory: the specific directories
/// first, the generic ones after them.
pub open spec fn fragments_with(architecture: ArchitectureClass, directory: Seq<char>) -> Seq<
    Seq<char>,
> {
    seq![
        architecture.kernel_directory(),
        architecture.sub_directory(),
        architecture.width_directory(),
        directory,
        "autoconf"@,
        "gen_config"@,
        "include"@,
    ]
}

/// The search path for an architecture and a platform.
pub open spec fn include_fragments(architecture: ArchitectureClass, platform: Seq<char>) -> Result<
    Seq<Seq<char>>,
    ConfigErrorView,
> {
    match platform_directory(architecture, platform) {
        Ok(directory) => Ok(fragments_with(architecture, directory)),
        Err(error) => Err(error),
    }
}

/// The header search path: relative path fragments, in the order in which they
/// are to be searched.
#[derive(Clone, Debug, PartialEq, Eq)]
pub struct IncludeSet {
    pub fragments: Vec<String>,
}

impl View for IncludeSet {
    type V = Seq<Seq<char>>;

    open spec fn view(&self) -> Seq<Seq<char>> {
        self.fragments.deep_view()
    }
}

impl DeepView for IncludeSet {
    type V = Seq<Seq<char>>;

    open spec fn deep_view(&self) -> Seq<Seq<char>> {
        self@
    }
}

impl IncludeSet {
    /// The set is the search path of some architecture with some platform
    /// directory.
    pub open spec fn wf(&self) -> bool {
        exists|architecture: ArchitectureClass, directory: Seq<char>|
            self@ == #[trigger] fragments_with(architecture, directory)
    }
}

/// Looks up the directory of an ARM platform.
fn arm_directory(platform: &str) -> (r: Option<&'static str>)
    ensures
        r.deep_view() == arm_platform_directory(platform@),
{
    if same_text(platform, "sabre") {
        Some("imx6")
    } else if same_text(platform, "exynos5410") || same_text(platform, "exynos5422") || same_text(
        platform,
        "exynos5250",
    ) {
        Some("exynos5")
    } else if same_text(platform, "imx7sabre") {
        Some("imx7")
    } else if same_text(platform, "rpi3") {
        Some("bcm2837")
    } else {
        None
    }
}

/// Finds the directory that holds the headers of a platform.
pub fn directory_of_platform(architecture: ArchitectureClass, platform: &str) -> (r: Result<
    String,
    ConfigError,
>)
    ensures
        result_view(r) == platform_directory(architecture, platform@),
{
    match architecture {
        ArchitectureClass::X86 => {
            if same_text(platform, "pc99") {
                Ok(String::from_str(platform))
            } else {
                Err(
                    ConfigError::IncompatibleTargetPlatform {
                        architecture,
                        platform: String::from_str(platform),
                    },
                )
            }
        },
        _ => match arm_directory(platform) {
            Some(directory) => Ok(String::from_str(directory)),
            None => Err(ConfigError::UnsupportedPlatform { platform: String::from_str(platform) }),
        },
    }
}

/// Derives the header search path for an architecture and a platform.
pub fn include_set(architecture: ArchitectureClass, platform: &str) -> (r: Result<
    IncludeSet,
    ConfigError,
>)
    ensures
        result_view(r) == include_fragments(architecture, platform@),
        r matches Ok(set) ==> set.wf(),
{
    let directory = match directory_of_platform(architecture, platform) {
        Ok(directory) => directory,
        Err(error) => {
            return Err(error);
        },
    };
    let (kernel, sub, width) = match architecture {
        ArchitectureClass::X86 => ("x86", "x86_64", "64"),
        ArchitectureClass::Arm32 => ("arm", "aarch32", "32"),
        ArchitectureClass::Arm64 => ("arm", "aarch64", "64"),
    };
    let ghost chosen = directory@;
    let mut fragments: Vec<String> = Vec::new();
    fragments.push(String::from_str(kernel));
    fragments.push(String::from_str(sub));
    fragments.push(String::from_str(width));
    fragments.push(directory);
    fragments.push(String::from_str("autoconf"));
    fragments.push(String::from_str("gen_config"));
    fragments.push(String::from_str("include"));
    proof {
        assert(fragments.deep_view() =~= fragments_with(architecture, chosen));
    }
    Ok(IncludeSet { fragments })
}

} // verus!
