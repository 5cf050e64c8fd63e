//! The host platform and the release asset name derived from it.

use vstd::prelude::*;
use vstd::string::StringExecFns;

verus! {

/// CPU architecture of the host, as the editor reports it.
#[derive(Clone, Copy, PartialEq, Eq, Structural, Debug)]
pub enum Arch {
    X8664,
    X86,
    Aarch64,
}

/// Operating system of the host, as the editor reports it.
#[derive(Clone, Copy, PartialEq, Eq, Structural, Debug)]
pub enum Os {
    Windows,
    Mac,
    Linux,
}

/// The architecture part of an asset name.
pub open spec fn spec_arch_name(arch: Arch) -> Seq<char> {
    match arch {
        Arch::X8664 => "x86_64"@,
        Arch::X86 => "x86"@,
        Arch::Aarch64 => "aarch64"@,
    }
}

/// The operating-system part of an asset name.
pub open spec fn spec_os_name(os: Os) -> Seq<char> {
    match os {
        Os::Windows => "windows-msvc"@,
        Os::Mac => "apple-darwin"@,
        Os::Linux => "unknown-linux-gnu"@,
    }
}

/// The full asset name: `lume-lsp-<arch>-<os>.tar.gz`.
pub open spec fn spec_asset_name(arch: Arch, os: Os) -> Seq<char> {
    "lume-lsp-"@ + spec_arch_name(arch) + "-"@ + spec_os_name(os) + ".tar.gz"@
}

/// The archive name expected among a release's assets for this platform.
pub fn asset_name(arch: Arch, os: Os) -> (name: String)
    ensures
        name@ == spec_asset_name(arch, os),
{
    let arch_part: &str = match arch {
        Arch::X8664 => "x86_64",
        Arch::X86 => "x86",
        Arch::Aarch64 => "aarch64",
    };
    let os_part: &str = match os {
        Os::Windows => "windows-msvc",
        Os::Mac => "apple-darwin",
        Os::Linux => "unknown-linux-gnu",
    };
    String::from_str("lume-lsp-").concat(arch_part).concat("-").concat(os_part).concat(
        ".tar.gz",
    )
}

/// The platform mapping never sends two distinct (architecture, operating
/// system) pairs to the same asset name; together with `spec_asset_name`
/// being a total function, every pair has exactly one name of its own.
pub proof fn lemma_asset_name_injective(a1: Arch, o1: Os, a2: Arch, o2: Os)
    requires
        spec_asset_name(a1, o1) == spec_asset_name(a2, o2),
    ensures
        a1 == a2 && o1 == o2,
{
    reveal_strlit("lume-lsp-");
    reveal_strlit("-");
    reveal_strlit(".tar.gz");
    reveal_strlit("x86_64");
    reveal_strlit("x86");
    reveal_strlit("aarch64");
    reveal_strlit("windows-msvc");
    reveal_strlit("apple-darwin");
    reveal_strlit("unknown-linux-gnu");
    let n1 = spec_asset_name(a1, o1);
    let n2 = spec_asset_name(a2, o2);
    match (a1, o1) {
        (Arch::X8664, Os::Windows) => {
            assert(n1.len() == 35 && n1[16] == 'w');
        },
        (Arch::X8664, Os::Mac) => {
            assert(n1.len() == 35 && n1[16] == 'a');
        },
        (Arch::X8664, Os::Linux) => {
            assert(n1.len() == 40);
        },
        (Arch::X86, Os::Windows) => {
            assert(n1.len() == 32 && n1[13] == 'w');
        },
        (Arch::X86, Os::Mac) => {
            assert(n1.len() == 32 && n1[13] == 'a');
        },
        (Arch::X86, Os::Linux) => {
            assert(n1.len() == 37);
        },
        (Arch::Aarch64, Os::Windows) => {
            assert(n1.len() == 36 && n1[17] == 'w');
        },
        (Arch::Aarch64, Os::Mac) => {
            assert(n1.len() == 36 && n1[17] == 'a');
        },
        (Arch::Aarch64, Os::Linux) => {
            assert(n1.len() == 41);
        },
    }
    match (a2, o2) {
        (Arch::X8664, Os::Windows) => {
            assert(n2.len() == 35 && n2[16] == 'w');
        },
        (Arch::X8664, Os::Mac) => {
            assert(n2.len() == 35 && n2[16] == 'a');
        },
        (Arch::X8664, Os::Linux) => {
            assert(n2.len() == 40);
        },
        (Arch::X86, Os::Windows) => {
            assert(n2.len() == 32 && n2[13] == 'w');
        },
        (Arch::X86, Os::Mac) => {
            assert(n2.len() == 32 && n2[13] == 'a');
        },
        (Arch::X86, Os::Linux) => {
            assert(n2.len() == 37);
        },
        (Arch::Aarch64, Os::Windows) => {
            assert(n2.len() == 36 && n2[17] == 'w');
        },
        (Arch::Aarch64, Os::Mac) => {
            assert(n2.len() == 36 && n2[17] == 'a');
        },
        (Arch::Aarch64, Os::Linux) => {
            assert(n2.len() == 41);
        },
    }
}

} // verus!
