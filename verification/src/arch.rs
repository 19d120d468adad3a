//! Processor architectures of the virtual machines.

use crate::text::{ascii_lower, same_text, to_ascii_lowercase, trim, trimmed};
use vstd::prelude::*;
use vstd::string::*;

verus! {

/// Processor architecture of a virtual machine.
#[derive(Debug, Clone, Copy, PartialEq, Eq, Structural)]
pub enum Arch {
    Arm64,
    Amd64,
}

/// A name that denotes no known architecture.
#[derive(Debug)]
pub struct UnknownArch {
    /// The name as it was compared: trimmed and in lower case.
    pub name: String,
}

/// The architecture that a name denotes once it is trimmed and put in lower
/// case: either of the two spellings of each architecture.
pub open spec fn arch_named(name: Seq<char>) -> Option<Arch> {
    let plain = ascii_lower(trimmed(name));
    if plain == "arm64"@ || plain == "aarch64"@ {
        Some(Arch::Arm64)
    } else if plain == "amd64"@ || plain == "x86_64"@ {
        Some(Arch::Amd64)
    } else {
        None
    }
}

impl Arch {
    /// The architecture as `uname -m` prints it.
    pub open spec fn uname_m_text(self) -> Seq<char> {
        match self {
            Arch::Arm64 => "aarch64"@,
            Arch::Amd64 => "x86_64"@,
        }
    }

    /// The architecture as `dpkg --print-architecture` prints it.
    pub open spec fn dpkg_text(self) -> Seq<char> {
        match self {
            Arch::Arm64 => "arm64"@,
            Arch::Amd64 => "amd64"@,
        }
    }

    /// Architecture as returned by `uname -m`.
    pub fn as_uname_m(&self) -> (text: &'static str)
        ensures
            text@ == self.uname_m_text(),
    {
        match self {
            Arch::Arm64 => "aarch64",
            Arch::Amd64 => "x86_64",
        }
    }

    /// Architecture as returned by `dpkg --print-architecture`.
    pub fn as_dpkg(&self) -> (text: &'static str)
        ensures
            text@ == self.dpkg_text(),
    {
        match self {
            Arch::Arm64 => "arm64",
            Arch::Amd64 => "amd64",
        }
    }

    /// Reads an architecture from either of its names, in any case and with
    /// white space around it.
    pub fn parse(s: &str) -> (arch: Result<Arch, UnknownArch>)
        ensures
            match arch {
                Ok(found) => arch_named(s@) == Some(found),
                Err(unknown) => arch_named(s@) is None && unknown.name@ == ascii_lower(
                    trimmed(s@),
                ),
            },
    {
        let plain = to_ascii_lowercase(trim(s).as_str());
        if same_text(plain.as_str(), "arm64") || same_text(plain.as_str(), "aarch64") {
            Ok(Arch::Arm64)
        } else if same_text(plain.as_str(), "amd64") || same_text(plain.as_str(), "x86_64") {
            Ok(Arch::Amd64)
        } else {
            Err(UnknownArch { name: plain })
        }
    }
}

impl UnknownArch {
    /// The message of the error.
    pub fn message(&self) -> (message: String)
        ensures
            message@ == "Unknown arch: "@ + self.name@,
    {
        let mut message = String::from_str("Unknown arch: ");
        message.append(self.name.as_str());
        message
    }
}

impl std::str::FromStr for Arch {
    type Err = UnknownArch;

    /// Reads an architecture as [`Arch::parse`] does.
    fn from_str(s: &str) -> (arch: Result<Self, Self::Err>)
        ensures
            match arch {
                Ok(found) => arch_named(s@) == Some(found),
                Err(unknown) => arch_named(s@) is None && unknown.name@ == ascii_lower(
                    trimmed(s@),
                ),
            },
    {
        Arch::parse(s)
    }
}

/// Each architecture is read back from both of its names.
pub proof fn lemma_names_are_read_back(arch: Arch)
    ensures
        arch_named(arch.uname_m_text()) == Some(arch),
        arch_named(arch.dpkg_text()) == Some(arch),
{
    reveal_strlit("aarch64");
    reveal_strlit("x86_64");
    reveal_strlit("arm64");
    reveal_strlit("amd64");
    let u = arch.uname_m_text();
    let d = arch.dpkg_text();
    crate::text::lemma_trimmed_identity(u);
    crate::text::lemma_trimmed_identity(d);
    assert(ascii_lower(u) =~= u);
    assert(ascii_lower(d) =~= d);
    assert("amd64"@[1] != "arm64"@[1]);
}

} // verus!
