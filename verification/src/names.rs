//! The names the resolver computes: the downloadable asset for a given
//! architecture and platform, the version-qualified installation directory,
//! and the binary path inside it.

use vstd::prelude::*;
use crate::text::push_str;
use crate::text::concat2;

verus! {

/// The operating systems the host can report.
#[derive(Clone, Copy, Debug, PartialEq, Eq, Structural)]
pub enum Os {
    Mac,
    Linux,
    Windows,
}

/// The CPU architectures the host can report.
#[derive(Clone, Copy, Debug, PartialEq, Eq, Structural)]
pub enum Arch {
    Aarch64,
    X86,
    X8664,
}

/// The label under which a platform appears in asset names.
pub open spec fn os_label(os: Os) -> Seq<char> {
    match os {
        Os::Mac => "macos"@,
        Os::Linux => "linux"@,
        Os::Windows => "windows"@,
    }
}

/// The label under which an architecture appears in asset names.
pub open spec fn arch_label(arch: Arch) -> Seq<char> {
    match arch {
        Arch::Aarch64 => "aarch64"@,
        Arch::X86 => "x86"@,
        Arch::X8664 => "x86_64"@,
    }
}

/// The file extension of the asset: a gzip tarball everywhere but on
/// windows, whose asset is the raw executable.
pub open spec fn extension_label(os: Os) -> Seq<char> {
    match os {
        Os::Windows => "exe"@,
        Os::Mac => "tar.gz"@,
        Os::Linux => "tar.gz"@,
    }
}

/// The full asset name for an architecture/platform pair.
pub open spec fn asset_name_spec(arch: Arch, os: Os) -> Seq<char> {
    "magic-"@ + arch_label(arch) + "-"@ + os_label(os) + "."@ + extension_label(os)
}

/// The version-qualified directory the release is installed into.
pub open spec fn version_dir_spec(version: Seq<char>) -> Seq<char> {
    "magic-"@ + version
}

/// The path of the binary inside the version-qualified directory.
pub open spec fn binary_path_spec(version: Seq<char>) -> Seq<char> {
    version_dir_spec(version) + "/magic"@
}

pub fn os_label_str(os: Os) -> (r: &'static str)
    ensures
        r@ == os_label(os),
{
    match os {
        Os::Mac => "macos",
        Os::Linux => "linux",
        Os::Windows => "windows",
    }
}

pub fn arch_label_str(arch: Arch) -> (r: &'static str)
    ensures
        r@ == arch_label(arch),
{
    match arch {
        Arch::Aarch64 => "aarch64",
        Arch::X86 => "x86",
        Arch::X8664 => "x86_64",
    }
}

pub fn extension_str(os: Os) -> (r: &'static str)
    ensures
        r@ == extension_label(os),
{
    match os {
        Os::Windows => "exe",
        Os::Mac => "tar.gz",
        Os::Linux => "tar.gz",
    }
}

/// The name of the release asset to download for the given architecture
/// and platform.
pub fn asset_name(arch: Arch, os: Os) -> (r: String)
    ensures
        r@ == asset_name_spec(arch, os),
{
    let mut r = String::new();
    push_str(&mut r, "magic-");
    push_str(&mut r, arch_label_str(arch));
    push_str(&mut r, "-");
    push_str(&mut r, os_label_str(os));
    push_str(&mut r, ".");
    push_str(&mut r, extension_str(os));
    proof {
        assert(r@ =~= asset_name_spec(arch, os));
    }
    r
}

/// The directory a release of the given version is installed into.
pub fn version_dir(version: &str) -> (r: String)
    ensures
        r@ == version_dir_spec(version@),
{
    concat2("magic-", version)
}

/// The path of the `magic` binary inside the installation directory of the
/// given version.
pub fn binary_path(version: &str) -> (r: String)
    ensures
        r@ == binary_path_spec(version@),
{
    let dir = version_dir(version);
    let r = concat2(dir.as_str(), "/magic");
    r
}

/// For a fixed architecture/platform pair the asset name is one determined
/// character sequence, built from the two labels; its extension is the raw
/// executable's exactly on the windows platform and the gzip-tar archive's
/// on every other, and the two extensions differ.
pub proof fn asset_name_extension(arch: Arch, os: Os)
    ensures
        asset_name_spec(arch, os) == "magic-"@ + arch_label(arch) + "-"@ + os_label(os) + "."@
            + extension_label(os),
        os matches Os::Windows ==> extension_label(os) == "exe"@,
        !(os matches Os::Windows) ==> extension_label(os) == "tar.gz"@,
        "exe"@ != "tar.gz"@,
{
    reveal_strlit("exe");
    reveal_strlit("tar.gz");
    assert("exe"@.len() == 3);
    assert("tar.gz"@.len() == 6);
}

} // verus!
