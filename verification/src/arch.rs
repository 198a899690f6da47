//! Architecture classes and how a target triple selects one.

use crate::text::{contains, contains_seq};
use vstd::prelude::*;

verus! {

/// The families of processor the kernel can be built for.
#[derive(Clone, Copy, Debug, PartialEq, Eq, Structural)]
pub enum ArchitectureClass {
    X86,
    Arm32,
    Arm64,
}

/// The architecture class that a target triple names, if it names one.
///
/// A triple is classified by the first of the markers `arm`, `aarch64` and
/// `x86` that occurs in it.
pub open spec fn architecture_of(target: Seq<char>) -> Option<ArchitectureClass> {
    if contains_seq(target, "arm"@) {
        Some(ArchitectureClass::Arm32)
    } else if contains_seq(target, "aarch64"@) {
        Some(ArchitectureClass::Arm64)
    } else if contains_seq(target, "x86"@) {
        Some(ArchitectureClass::X86)
    } else {
        None
    }
}

impl ArchitectureClass {
    /// Classifies a target triple.
    pub fn from_target(target: &str) -> (r: Option<ArchitectureClass>)
        ensures
            r == architecture_of(target@),
    {
        if contains(target, "arm") {
            Some(ArchitectureClass::Arm32)
        } else if contains(target, "aarch64") {
            Some(ArchitectureClass::Arm64)
        } else if contains(target, "x86") {
            Some(ArchitectureClass::X86)
        } else {
            None
        }
    }

    /// The family belongs to the ARM architectures.
    pub open spec fn is_arm(self) -> bool {
        self == ArchitectureClass::Arm32 || self == ArchitectureClass::Arm64
    }

    /// The name used for the family in diagnostics.
    pub open spec fn name(self) -> Seq<char> {
        match self {
            ArchitectureClass::X86 => "x86"@,
            ArchitectureClass::Arm32 => "arm32"@,
            ArchitectureClass::Arm64 => "arm64"@,
        }
    }

    pub fn name_str(self) -> (r: &'static str)
        ensures
            r@ == self.name(),
    {
        match self {
            ArchitectureClass::X86 => "x86",
            ArchitectureClass::Arm32 => "arm32",
            ArchitectureClass::Arm64 => "arm64",
        }
    }
}

} // verus!
