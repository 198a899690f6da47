//! What the root task settles when it starts and when it gives up.
//!
//! The boot information is handed over once; every later hand-over is
//! ignored. When the task gives up, it writes why to the debug output before
//! it aborts.

use crate::text::{decimal, push_decimal};
use vstd::prelude::*;
use vstd::string::*;

verus! {

/// The boot information of the root task: nothing until it is handed over,
/// and then the address that was handed over first.
#[derive(Clone, Copy, Debug, PartialEq, Eq)]
pub struct BootInfo {
    address: Option<usize>,
}

impl View for BootInfo {
    type V = Option<usize>;

    closed spec fn view(&self) -> Option<usize> {
        self.address
    }
}

impl BootInfo {
    /// No boot information yet.
    pub fn new() -> (r: BootInfo)
        ensures
            r@ is None,
    {
        BootInfo { address: None }
    }

    /// The address that was handed over, if any was.
    pub fn get(&self) -> (r: Option<usize>)
        ensures
            r == self@,
    {
        self.address
    }

    /// Takes the boot information at `address`. The first hand-over is kept
    /// and answered with `true`: the caller then announces the task's buffer
    /// to the kernel. Every later hand-over changes nothing and is answered
    /// with `false`.
    pub fn start_init(&mut self, address: usize) -> (first: bool)
        ensures
            first == (old(self)@ is None),
            final(self)@ == if first {
                Some(address)
            } else {
                old(self)@
            },
    {
        match self.address {
            None => {
                self.address = Some(address);
                true
            },
            Some(_) => false,
        }
    }
}

/// Why the root task gives up.
#[derive(Clone, Copy, Debug, PartialEq, Eq, Structural)]
pub enum AbortCause {
    Panic,
    Unwinding,
    OutOfMemory,
}

impl AbortCause {
    /// The last line that the task writes before it aborts.
    pub open spec fn banner(self) -> Seq<char> {
        match self {
            AbortCause::Panic => "----- aborting from panic -----\n"@,
            AbortCause::Unwinding => "----- aborting from eh_personality -----\n"@,
            AbortCause::OutOfMemory => "----- aborting from out-of-memory -----\n"@,
        }
    }

    pub fn banner_str(self) -> (r: &'static str)
        ensures
            r@ == self.banner(),
    {
        match self {
            AbortCause::Panic => "----- aborting from panic -----\n",
            AbortCause::Unwinding => "----- aborting from eh_personality -----\n",
            AbortCause::OutOfMemory => "----- aborting from out-of-memory -----\n",
        }
    }
}

/// What a panic writes before its message: where it happened.
pub open spec fn panic_heading(file: Seq<char>, line: u32) -> Seq<char> {
    "panic at "@ + file + ":"@ + decimal(line as nat) + ": "@
}

/// The heading of a panic at `line` of `file`.
pub fn heading_of_panic(file: &str, line: u32) -> (r: String)
    ensures
        r@ == panic_heading(file@, line),
{
    let mut out = String::from_str("panic at ");
    out.append(file);
    out.append(":");
    push_decimal(&mut out, line as u64);
    out.append(": ");
    out
}

} // verus!
