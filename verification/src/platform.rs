//! Operating systems, processor architectures and the tags that release
//! assets carry for them.

use vstd::prelude::*;
use vstd::string::StringExecFns;

verus! {

/// Operating system family of the running host.
#[derive(Clone, Copy, Debug, PartialEq, Eq, Structural)]
pub enum Os {
    Mac,
    Linux,
    Windows,
}

/// Processor architecture of the running host.
#[derive(Clone, Copy, Debug, PartialEq, Eq, Structural)]
pub enum Architecture {
    Aarch64,
    X86,
    X8664,
}

/// How a release archive is packed.
#[derive(Clone, Copy, Debug, PartialEq, Eq, Structural)]
pub enum ArchiveKind {
    GzipTar,
    Zip,
}

impl Architecture {
    /// Whether release archives are published for this architecture:
    /// every one but 32-bit x86.
    pub open spec fn spec_is_supported(self) -> bool {
        self != Architecture::X86
    }

    /// The architecture part of an asset name, where there is one.
    pub open spec fn spec_tag(self) -> Option<Seq<char>> {
        match self {
            Architecture::Aarch64 => Some("aarch64"@),
            Architecture::X8664 => Some("x86_64"@),
            Architecture::X86 => None,
        }
    }

    #[verifier::when_used_as_spec(spec_is_supported)]
    pub fn is_supported(self) -> (supported: bool)
        ensures
            supported == self.spec_is_supported(),
    {
        match self {
            Architecture::X86 => false,
            _ => true,
        }
    }

    /// The architecture part of an asset name; `None` exactly for the
    /// unsupported 32-bit x86.
    pub fn tag(self) -> (tag: Option<&'static str>)
        ensures
            tag.is_some() == self.spec_is_supported(),
            match tag {
                Some(t) => self.spec_tag() == Some(t@),
                None => self.spec_tag().is_none(),
            },
    {
        match self {
            Architecture::Aarch64 => Some("aarch64"),
            Architecture::X8664 => Some("x86_64"),
            Architecture::X86 => None,
        }
    }
}

impl Os {
    /// The operating-system part of an asset name.
    pub open spec fn spec_tag(self) -> Seq<char> {
        match self {
            Os::Mac => "apple-darwin"@,
            Os::Linux => "unknown-linux-gnu"@,
            Os::Windows => "pc-windows-msvc"@,
        }
    }

    /// Archives are zip files on Windows and gzipped tarballs elsewhere.
    pub open spec fn spec_archive_kind(self) -> ArchiveKind {
        match self {
            Os::Windows => ArchiveKind::Zip,
            _ => ArchiveKind::GzipTar,
        }
    }

    /// What is appended to the executable's file name: `.exe` on Windows,
    /// nothing elsewhere.
    pub open spec fn spec_executable_suffix(self) -> Seq<char> {
        match self {
            Os::Windows => ".exe"@,
            _ => Seq::<char>::empty(),
        }
    }

    pub fn tag(self) -> (tag: &'static str)
        ensures
            tag@ == self.spec_tag(),
    {
        match self {
            Os::Mac => "apple-darwin",
            Os::Linux => "unknown-linux-gnu",
            Os::Windows => "pc-windows-msvc",
        }
    }

    #[verifier::when_used_as_spec(spec_archive_kind)]
    pub fn archive_kind(self) -> (kind: ArchiveKind)
        ensures
            kind == self.spec_archive_kind(),
    {
        match self {
            Os::Windows => ArchiveKind::Zip,
            _ => ArchiveKind::GzipTar,
        }
    }

    pub fn executable_suffix(self) -> (suffix: &'static str)
        ensures
            suffix@ == self.spec_executable_suffix(),
    {
        match self {
            Os::Windows => {
                ".exe"
            },
            _ => {
                proof {
                    reveal_strlit("");
                    assert(""@ =~= Seq::<char>::empty());
                }
                ""
            },
        }
    }
}

impl ArchiveKind {
    /// The file extension of an archive of this kind, without the dot.
    pub open spec fn spec_extension(self) -> Seq<char> {
        match self {
            ArchiveKind::GzipTar => "tar.gz"@,
            ArchiveKind::Zip => "zip"@,
        }
    }

    pub fn extension(self) -> (extension: &'static str)
        ensures
            extension@ == self.spec_extension(),
    {
        match self {
            ArchiveKind::GzipTar => "tar.gz",
            ArchiveKind::Zip => "zip",
        }
    }
}

/// The platform part of an asset name: architecture tag, a hyphen, then the
/// operating-system tag.
pub open spec fn spec_platform_label(arch_tag: Seq<char>, os_tag: Seq<char>) -> Seq<char> {
    arch_tag + "-"@ + os_tag
}

/// The file name of a release asset: binary name, architecture tag and
/// operating-system tag joined by hyphens, then a dot and the archive
/// extension.
pub open spec fn spec_asset_name(
    name: Seq<char>,
    arch_tag: Seq<char>,
    os_tag: Seq<char>,
    extension: Seq<char>,
) -> Seq<char> {
    name + "-"@ + spec_platform_label(arch_tag, os_tag) + "."@ + extension
}

/// The asset that a platform needs, or `None` where none is published for
/// its architecture.
pub open spec fn spec_asset_for(name: Seq<char>, os: Os, arch: Architecture) -> Option<Seq<char>> {
    match arch.spec_tag() {
        Some(arch_tag) => Some(
            spec_asset_name(name, arch_tag, os.spec_tag(), os.spec_archive_kind().spec_extension()),
        ),
        None => None,
    }
}

pub fn platform_label(arch_tag: &str, os_tag: &str) -> (label: String)
    ensures
        label@ == spec_platform_label(arch_tag@, os_tag@),
{
    let mut label = arch_tag.to_owned();
    label.append("-");
    label.append(os_tag);
    label
}

pub fn asset_name(name: &str, arch_tag: &str, os_tag: &str, extension: &str) -> (asset: String)
    ensures
        asset@ == spec_asset_name(name@, arch_tag@, os_tag@, extension@),
{
    let label = platform_label(arch_tag, os_tag);
    let mut asset = name.to_owned();
    asset.append("-");
    asset.append(label.as_str());
    asset.append(".");
    asset.append(extension);
    asset
}

/// Names the asset for a platform. Fails exactly on 32-bit x86, whatever
/// the name and the operating system.
pub fn asset_for(name: &str, os: Os, arch: Architecture) -> (asset: Option<String>)
    ensures
        asset.is_some() == arch.spec_is_supported(),
        match asset {
            Some(a) => spec_asset_for(name@, os, arch) == Some(a@),
            None => spec_asset_for(name@, os, arch).is_none(),
        },
{
    match arch.tag() {
        Some(arch_tag) => Some(asset_name(name, arch_tag, os.tag(), os.archive_kind().extension())),
        None => None,
    }
}

} // verus!
