use vstd::prelude::*;
use crate::text::{joined, same_text};

verus! {

/// Operating systems that the server is released for, by release-asset name.
#[derive(PartialEq, Eq, Structural, Clone, Copy, Debug)]
pub enum Os {
    Darwin,
    Linux,
    Windows,
}

/// Processor architectures that the server is released for.
#[derive(PartialEq, Eq, Structural, Clone, Copy, Debug)]
pub enum Arch {
    Amd64,
    Arm64,
}

/// The release system for the name that the host reports; `None` when the
/// server is not released for it.
pub open spec fn os_of(name: Seq<char>) -> Option<Os> {
    if name == "macos"@ {
        Some(Os::Darwin)
    } else if name == "linux"@ {
        Some(Os::Linux)
    } else if name == "windows"@ {
        Some(Os::Windows)
    } else {
        None
    }
}

/// The release architecture for the name that the host reports.
pub open spec fn arch_of(name: Seq<char>) -> Option<Arch> {
    if name == "x86_64"@ {
        Some(Arch::Amd64)
    } else if name == "aarch64"@ {
        Some(Arch::Arm64)
    } else {
        None
    }
}

pub open spec fn os_label(os: Os) -> Seq<char> {
    match os {
        Os::Darwin => "darwin"@,
        Os::Linux => "linux"@,
        Os::Windows => "windows"@,
    }
}

pub open spec fn arch_label(arch: Arch) -> Seq<char> {
    match arch {
        Arch::Amd64 => "amd64"@,
        Arch::Arm64 => "arm64"@,
    }
}

/// `thriftls-{os}-{arch}`, with `.exe` after it on windows.
pub open spec fn binary_name_of(os: Os, arch: Arch) -> Seq<char> {
    let base = "thriftls-"@ + os_label(os) + "-"@ + arch_label(arch);
    if os == Os::Windows {
        base + ".exe"@
    } else {
        base
    }
}

/// The file name of the released server for what the host reports, or
/// `None` when either value is missing or not one the server is released for.
pub open spec fn resolved_name(os: Option<Seq<char>>, arch: Option<Seq<char>>) -> Option<Seq<char>> {
    match (os, arch) {
        (Some(o), Some(a)) => match (os_of(o), arch_of(a)) {
            (Some(os), Some(arch)) => Some(binary_name_of(os, arch)),
            _ => None,
        },
        _ => None,
    }
}

pub open spec fn text_of(s: Option<String>) -> Option<Seq<char>> {
    match s {
        Some(t) => Some(t@),
        None => None,
    }
}

impl Os {
    /// Maps the host's operating-system name (`macos`, `linux`, `windows`).
    pub fn from_host(name: &str) -> (r: Option<Os>)
        ensures
            r == os_of(name@),
    {
        if same_text(name, "macos") {
            Some(Os::Darwin)
        } else if same_text(name, "linux") {
            Some(Os::Linux)
        } else if same_text(name, "windows") {
            Some(Os::Windows)
        } else {
            None
        }
    }

    /// The name that release assets use for this system.
    pub fn label(&self) -> (r: &'static str)
        ensures
            r@ == os_label(*self),
    {
        match self {
            Os::Darwin => "darwin",
            Os::Linux => "linux",
            Os::Windows => "windows",
        }
    }
}

impl Arch {
    /// Maps the host's architecture name (`x86_64`, `aarch64`).
    pub fn from_host(name: &str) -> (r: Option<Arch>)
        ensures
            r == arch_of(name@),
    {
        if same_text(name, "x86_64") {
            Some(Arch::Amd64)
        } else if same_text(name, "aarch64") {
            Some(Arch::Arm64)
        } else {
            None
        }
    }

    /// The name that release assets use for this architecture.
    pub fn label(&self) -> (r: &'static str)
        ensures
            r@ == arch_label(*self),
    {
        match self {
            Arch::Amd64 => "amd64",
            Arch::Arm64 => "arm64",
        }
    }
}

/// The file name of the released server for a system and an architecture.
pub fn binary_name(os: Os, arch: Arch) -> (r: String)
    ensures
        r@ == binary_name_of(os, arch),
{
    let name = joined("thriftls-", os.label());
    let name = joined(name.as_str(), "-");
    let name = joined(name.as_str(), arch.label());
    if os == Os::Windows {
        joined(name.as_str(), ".exe")
    } else {
        name
    }
}

/// The file name of the released server for the names that the host reports
/// (`None` where it could not tell); `None` when the server is not released
/// for that platform. The architecture is looked at first.
pub fn resolve_binary_name(os: &Option<String>, arch: &Option<String>) -> (r: Option<String>)
    ensures
        text_of(r) == resolved_name(text_of(*os), text_of(*arch)),
{
    let arch = match arch {
        Some(a) => match Arch::from_host(a.as_str()) {
            Some(x) => x,
            None => return None,
        },
        None => return None,
    };
    let os = match os {
        Some(o) => match Os::from_host(o.as_str()) {
            Some(x) => x,
            None => return None,
        },
        None => return None,
    };
    Some(binary_name(os, arch))
}

} // verus!
