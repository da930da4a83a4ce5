//! The operating systems and processor architectures the application knows.

use vstd::prelude::*;
use crate::text::str_equals;

verus! {

/// An operating system, as the application tells them apart.
#[derive(Debug, Clone, Copy, PartialEq, Eq, Structural)]
pub enum Os {
    Linux,
    MacOs,
    Windows,
    Unknown,
}

/// The name the application gives to an operating system.
pub open spec fn os_name_spec(os: Os) -> Seq<char> {
    match os {
        Os::Linux => "linux"@,
        Os::MacOs => "macos"@,
        Os::Windows => "windows"@,
        Os::Unknown => "unknown"@,
    }
}

/// The operating system that a raw name such as Rust's `std::env::consts::OS` denotes.
pub open spec fn os_from_name_spec(raw: Seq<char>) -> Os {
    if raw == "linux"@ {
        Os::Linux
    } else if raw == "macos"@ {
        Os::MacOs
    } else if raw == "windows"@ {
        Os::Windows
    } else {
        Os::Unknown
    }
}

/// The path separator used on an operating system.
pub open spec fn separator_spec(os: Os) -> Seq<char> {
    if os == Os::Windows {
        "\\"@
    } else {
        "/"@
    }
}

impl Os {
    /// Classifies a raw operating-system name: `linux`, `macos` and `windows`
    /// are known, anything else is `Unknown`.
    pub fn from_name(raw: &str) -> (os: Os)
        ensures
            os == os_from_name_spec(raw@),
    {
        if str_equals(raw, "linux") {
            Os::Linux
        } else if str_equals(raw, "macos") {
            Os::MacOs
        } else if str_equals(raw, "windows") {
            Os::Windows
        } else {
            Os::Unknown
        }
    }

    /// The name of the operating system: `linux`, `macos`, `windows` or `unknown`.
    pub fn name(&self) -> (r: &'static str)
        ensures
            r@ == os_name_spec(*self),
    {
        match self {
            Os::Linux => "linux",
            Os::MacOs => "macos",
            Os::Windows => "windows",
            Os::Unknown => "unknown",
        }
    }

    /// The character that separates path components on this operating system:
    /// `\` on Windows, `/` elsewhere.
    pub fn separator(&self) -> (sep: &'static str)
        ensures
            sep@ == separator_spec(*self),
    {
        match self {
            Os::Windows => "\\",
            _ => "/",
        }
    }
}

/// The name of the operating system called `os_name` (such as
/// `std::env::consts::OS`): `linux`, `macos` and `windows` are kept, any other
/// name becomes `unknown`.
pub fn get_os(os_name: &str) -> (r: &'static str)
    ensures
        r@ == os_name_spec(os_from_name_spec(os_name@)),
        (os_name@ == "linux"@ || os_name@ == "macos"@ || os_name@ == "windows"@) ==> r@ == os_name@,
{
    Os::from_name(os_name).name()
}

/// The architecture label used in DepotDownloader release names for a raw
/// architecture name such as Rust's `std::env::consts::ARCH`.
pub open spec fn arch_label_spec(raw: Seq<char>) -> Seq<char> {
    if raw == "x86_64"@ {
        "x64"@
    } else if raw == "aarch64"@ {
        "arm64"@
    } else if raw == "arm"@ {
        "arm"@
    } else {
        "x86_64"@
    }
}

/// Maps `x86_64` to `x64`, `aarch64` to `arm64`, `arm` to `arm`, and any other
/// architecture to `x86_64`.
pub fn arch_label(raw: &str) -> (r: &'static str)
    ensures
        r@ == arch_label_spec(raw@),
{
    if str_equals(raw, "x86_64") {
        "x64"
    } else if str_equals(raw, "aarch64") {
        "arm64"
    } else if str_equals(raw, "arm") {
        "arm"
    } else {
        "x86_64"
    }
}

/// Reading a known name back: each operating system is classified as itself
/// from its own name, and `Unknown` only where the name is not a known one.
pub proof fn law_os_name_round_trip(os: Os)
    requires
        os != Os::Unknown,
    ensures
        os_from_name_spec(os_name_spec(os)) == os,
{
    reveal_strlit("linux");
    reveal_strlit("macos");
    reveal_strlit("windows");
    assert("macos"@[0] != "linux"@[0]);
    assert("windows"@.len() != "linux"@.len());
    assert("windows"@.len() != "macos"@.len());
}

/// The names of the operating systems, their path separators, and how
/// architecture names are labelled, in full.
pub proof fn law_platform_tables(raw_arch: Seq<char>)
    ensures
        os_name_spec(Os::Linux) == "linux"@,
        os_name_spec(Os::MacOs) == "macos"@,
        os_name_spec(Os::Windows) == "windows"@,
        os_name_spec(Os::Unknown) == "unknown"@,
        separator_spec(Os::Windows) == "\\"@,
        separator_spec(Os::Linux) == "/"@,
        separator_spec(Os::MacOs) == "/"@,
        separator_spec(Os::Unknown) == "/"@,
        arch_label_spec("x86_64"@) == "x64"@,
        arch_label_spec("aarch64"@) == "arm64"@,
        arch_label_spec("arm"@) == "arm"@,
        raw_arch != "x86_64"@ && raw_arch != "aarch64"@ && raw_arch != "arm"@
            ==> arch_label_spec(raw_arch) == "x86_64"@,
        os_from_name_spec(raw_arch) == Os::Unknown || os_name_spec(os_from_name_spec(raw_arch))
            == raw_arch,
{
    reveal_strlit("x86_64");
    reveal_strlit("aarch64");
    reveal_strlit("arm");
    assert("aarch64"@.len() != "x86_64"@.len());
    assert("arm"@.len() != "x86_64"@.len());
    assert("arm"@.len() != "aarch64"@.len());
}

} // verus!
