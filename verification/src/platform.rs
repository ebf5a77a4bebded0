//! Maps host facts (operating system, CPU architecture) to the identifier
//! strings the package catalog understands. The host facts themselves are
//! detected once at startup by the composition root and handed in as data.

use vstd::prelude::*;
use crate::errors::ProvisionError;

verus! {

/// The operating systems the provisioning pipeline distinguishes.
#[derive(Debug, Clone, Copy, PartialEq, Eq, Structural)]
pub enum TargetOs {
    Windows,
    MacOs,
    Linux,
    /// Any operating system outside the supported set.
    Other,
}

/// The CPU architectures the provisioning pipeline distinguishes.
#[derive(Debug, Clone, Copy, PartialEq, Eq, Structural)]
pub enum TargetArch {
    X86_64,
    Aarch64,
    /// Any architecture outside the recognized set.
    Other,
}

/// The catalog identifier of an architecture; unrecognized architectures
/// fall back to `"x64"`.
pub open spec fn arch_name(arch: TargetArch) -> Seq<char> {
    match arch {
        TargetArch::X86_64 => "x64"@,
        TargetArch::Aarch64 => "arm64"@,
        TargetArch::Other => "x64"@,
    }
}

/// The catalog identifier of a supported operating system.
pub open spec fn os_name(os: TargetOs) -> Seq<char> {
    match os {
        TargetOs::Windows => "windows"@,
        TargetOs::MacOs => "macos"@,
        TargetOs::Linux => "linux"@,
        TargetOs::Other => ""@,
    }
}

/// The architecture string used in catalog queries. An unrecognized
/// architecture is reported as `"x64"` rather than failing.
pub fn get_system_arch(arch: TargetArch) -> (r: &'static str)
    ensures
        r@ == arch_name(arch),
{
    match arch {
        TargetArch::X86_64 => "x64",
        TargetArch::Aarch64 => "arm64",
        TargetArch::Other => "x64",
    }
}

/// The operating-system string used in catalog queries. Fails on any system
/// outside the closed set {windows, macos, linux}.
pub fn get_system_os(os: TargetOs) -> (r: Result<&'static str, ProvisionError>)
    ensures
        r is Ok <==> !(os is Other),
        r is Ok ==> r->Ok_0@ == os_name(os),
        r is Err ==> r->Err_0 == ProvisionError::PlatformUnsupported,
{
    match os {
        TargetOs::Windows => Ok("windows"),
        TargetOs::MacOs => Ok("macos"),
        TargetOs::Linux => Ok("linux"),
        TargetOs::Other => Err(ProvisionError::PlatformUnsupported),
    }
}

} // verus!
