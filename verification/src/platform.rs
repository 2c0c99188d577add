//! Operating system and processor architecture, as plain enums.
//!
//! The rest of the library branches on these values instead of probing the
//! process environment, so every platform decision can be exercised on any
//! machine.

use vstd::prelude::*;
use crate::text::eq_str;

verus! {

/// The operating system the helper binaries are resolved for.
#[derive(Clone, Copy, Debug, PartialEq, Eq, Structural)]
pub enum Os {
    Windows,
    Linux,
}

/// The processor architecture the helper binaries are resolved for.
#[derive(Clone, Copy, Debug, PartialEq, Eq, Structural)]
pub enum Arch {
    X86_64,
    Aarch64,
    Other,
}

/// Maps an operating-system name, as the standard library reports it, to
/// the platforms this system supports.
pub fn os_from_name(name: &str) -> (r: Option<Os>)
    ensures
        name@ == "windows"@ ==> r == Some(Os::Windows),
        name@ == "linux"@ ==> r == Some(Os::Linux),
        name@ != "windows"@ && name@ != "linux"@ ==> r is None,
{
    proof {
        reveal_strlit("windows");
        reveal_strlit("linux");
        assert("windows"@.len() == 7);
        assert("linux"@.len() == 5);
    }
    if eq_str(name, "windows") {
        Some(Os::Windows)
    } else if eq_str(name, "linux") {
        Some(Os::Linux)
    } else {
        None
    }
}

/// Maps an architecture name, as the standard library reports it, to the
/// architectures this system distinguishes.
pub fn arch_from_name(name: &str) -> (r: Arch)
    ensures
        name@ == "x86_64"@ ==> r == Arch::X86_64,
        name@ == "aarch64"@ ==> r == Arch::Aarch64,
        name@ != "x86_64"@ && name@ != "aarch64"@ ==> r == Arch::Other,
{
    proof {
        reveal_strlit("x86_64");
        reveal_strlit("aarch64");
        assert("x86_64"@.len() == 6);
        assert("aarch64"@.len() == 7);
    }
    if eq_str(name, "x86_64") {
        Arch::X86_64
    } else if eq_str(name, "aarch64") {
        Arch::Aarch64
    } else {
        Arch::Other
    }
}

} // verus!
