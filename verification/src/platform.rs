//! The platforms that server builds are published for, and the file names
//! that follow from them.

use vstd::prelude::*;
use vstd::string::*;

verus! {

/// An operating system that the host can run on.
#[derive(Clone, Copy, Debug, PartialEq, Eq, Structural)]
pub enum Os {
    Mac,
    Linux,
    Windows,
}

/// A processor architecture that the host can report.
#[derive(Clone, Copy, Debug, PartialEq, Eq, Structural)]
pub enum Architecture {
    Aarch64,
    X86,
    X8664,
}

/// The pair that selects one asset of a release.
#[derive(Clone, Copy, Debug, PartialEq, Eq, Structural)]
pub struct PlatformKey {
    pub os: Os,
    pub arch: Architecture,
}

/// The name of the server binary, and the stem of every asset name.
pub open spec fn tool_name() -> Seq<char> {
    "discord-ls"@
}

/// The repository whose releases hold the server builds.
pub open spec fn release_repository() -> Seq<char> {
    "valentinegb/discord-ls"@
}

/// The directory that versions are installed under and that the sweep lists.
pub open spec fn working_directory() -> Seq<char> {
    "./"@
}

/// Where the binary of `version` lies, relative to the working directory.
pub open spec fn binary_path_spec(version: Seq<char>, os: Os) -> Seq<char> {
    version + "/"@ + tool_name() + os.executable_suffix()
}

/// The name of the archive that holds the build for `os` and an
/// architecture whose release label is `arch_label`.
pub open spec fn asset_name_for(os: Os, arch_label: Seq<char>) -> Seq<char> {
    tool_name() + "-"@ + os.label() + "-"@ + arch_label + ".zip"@
}

/// The name of the archive for `key`, where its architecture has builds.
pub open spec fn asset_name_spec(key: PlatformKey) -> Option<Seq<char>> {
    match key.arch.label() {
        Some(arch_label) => Some(asset_name_for(key.os, arch_label)),
        None => None,
    }
}

impl Os {
    /// How release assets spell this operating system.
    pub open spec fn label(self) -> Seq<char> {
        match self {
            Os::Mac => "macOS"@,
            Os::Linux => "Linux"@,
            Os::Windows => "Windows"@,
        }
    }

    /// What follows the binary's name on this operating system.
    pub open spec fn executable_suffix(self) -> Seq<char> {
        match self {
            Os::Windows => ".exe"@,
            _ => ""@,
        }
    }

    /// The spelling of this operating system in asset names.
    pub fn release_label(self) -> (label: &'static str)
        ensures
            label@ == self.label(),
    {
        match self {
            Os::Mac => "macOS",
            Os::Linux => "Linux",
            Os::Windows => "Windows",
        }
    }

    /// `.exe` on Windows, nothing elsewhere.
    pub fn binary_suffix(self) -> (suffix: &'static str)
        ensures
            suffix@ == self.executable_suffix(),
    {
        match self {
            Os::Windows => ".exe",
            _ => "",
        }
    }
}

impl Architecture {
    /// Server builds exist for the 64-bit architectures only.
    pub open spec fn supported(self) -> bool {
        self is Aarch64 || self is X8664
    }

    /// How release assets spell this architecture, if builds exist for it.
    pub open spec fn label(self) -> Option<Seq<char>> {
        match self {
            Architecture::Aarch64 => Some("ARM64"@),
            Architecture::X8664 => Some("X64"@),
            Architecture::X86 => None,
        }
    }

    /// The text that stands for this architecture in an error message.
    pub open spec fn debug_text(self) -> Seq<char> {
        match self {
            Architecture::Aarch64 => "Architecture::Aarch64"@,
            Architecture::X86 => "Architecture::X86"@,
            Architecture::X8664 => "Architecture::X8664"@,
        }
    }

    /// The spelling of this architecture in asset names; nothing for an
    /// architecture without builds.
    pub fn release_label(self) -> (label: Option<&'static str>)
        ensures
            label is Some <==> self.supported(),
            match label {
                Some(text) => self.label() == Some(text@),
                None => self.label() is None,
            },
    {
        match self {
            Architecture::Aarch64 => Some("ARM64"),
            Architecture::X8664 => Some("X64"),
            Architecture::X86 => None,
        }
    }

    /// Calls the `Debug` impl of `zed_extension_api::Architecture` on the
    /// variant of the same name. That impl prints the type's name, two
    /// colons and the variant's name, which is what the contract claims.
    #[verifier::external_body]
    pub(crate) fn debug_string(self) -> (text: String)
        ensures
            text@ == self.debug_text(),
    {
        let host = match self {
            Architecture::Aarch64 => zed_extension_api::Architecture::Aarch64,
            Architecture::X86 => zed_extension_api::Architecture::X86,
            Architecture::X8664 => zed_extension_api::Architecture::X8664,
        };
        format!("{host:?}")
    }
}

/// The name under which the server is looked up on the search path.
pub fn server_binary_name() -> (name: &'static str)
    ensures
        name@ == tool_name(),
{
    "discord-ls"
}

/// The repository that is asked for its latest release.
pub fn server_repository() -> (repo: &'static str)
    ensures
        repo@ == release_repository(),
{
    "valentinegb/discord-ls"
}

/// The directory that the sweep lists.
pub fn install_directory() -> (dir: &'static str)
    ensures
        dir@ == working_directory(),
{
    "./"
}

/// Builds `<version>/discord-ls`, with `.exe` behind it on Windows.
pub fn binary_path(version: &str, os: Os) -> (path: String)
    ensures
        path@ == binary_path_spec(version@, os),
{
    let mut path = String::from_str(version);
    path.append("/");
    path.append(server_binary_name());
    path.append(os.binary_suffix());
    path
}

/// Builds `discord-ls-<OS>-<Arch>.zip`, or nothing where the architecture
/// has no builds.
pub fn asset_name(key: PlatformKey) -> (name: Option<String>)
    ensures
        name is Some <==> key.arch.supported(),
        match name {
            Some(text) => asset_name_spec(key) == Some(text@),
            None => asset_name_spec(key) is None,
        },
{
    match key.arch.release_label() {
        Some(arch_label) => {
            let mut name = String::from_str(server_binary_name());
            name.append("-");
            name.append(key.os.release_label());
            name.append("-");
            name.append(arch_label);
            name.append(".zip");
            Some(name)
        },
        None => None,
    }
}

} // verus!
