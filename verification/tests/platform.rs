use discord_ls_resolver::platform::{install_directory, server_binary_name, server_repository};
use discord_ls_resolver::{asset_name, binary_path, Architecture, Os, PlatformKey};

#[test]
fn binary_path_is_version_then_tool() {
    assert_eq!(binary_path("v1.2.3", Os::Linux), "v1.2.3/discord-ls");
    assert_eq!(binary_path("v1.2.3", Os::Mac), "v1.2.3/discord-ls");
}

#[test]
fn binary_path_has_exe_suffix_on_windows() {
    assert_eq!(binary_path("v1.2.3", Os::Windows), "v1.2.3/discord-ls.exe");
}

#[test]
fn binary_path_of_empty_version() {
    assert_eq!(binary_path("", Os::Linux), "/discord-ls");
}

#[test]
fn os_labels_follow_the_release_naming() {
    assert_eq!(Os::Mac.release_label(), "macOS");
    assert_eq!(Os::Linux.release_label(), "Linux");
    assert_eq!(Os::Windows.release_label(), "Windows");
}

#[test]
fn architecture_labels_follow_the_release_naming() {
    assert_eq!(Architecture::Aarch64.release_label(), Some("ARM64"));
    assert_eq!(Architecture::X8664.release_label(), Some("X64"));
    assert_eq!(Architecture::X86.release_label(), None);
}

#[test]
fn asset_name_for_each_supported_platform() {
    let cases = [
        (Os::Mac, Architecture::Aarch64, "discord-ls-macOS-ARM64.zip"),
        (Os::Mac, Architecture::X8664, "discord-ls-macOS-X64.zip"),
        (Os::Linux, Architecture::Aarch64, "discord-ls-Linux-ARM64.zip"),
        (Os::Linux, Architecture::X8664, "discord-ls-Linux-X64.zip"),
        (Os::Windows, Architecture::Aarch64, "discord-ls-Windows-ARM64.zip"),
        (Os::Windows, Architecture::X8664, "discord-ls-Windows-X64.zip"),
    ];
    for (os, arch, expected) in cases {
        assert_eq!(asset_name(PlatformKey { os, arch }), Some(expected.to_string()));
    }
}

#[test]
fn asset_name_is_missing_for_32_bit_x86() {
    for os in [Os::Mac, Os::Linux, Os::Windows] {
        assert_eq!(asset_name(PlatformKey { os, arch: Architecture::X86 }), None);
    }
}

#[test]
fn fixed_names() {
    assert_eq!(server_binary_name(), "discord-ls");
    assert_eq!(server_repository(), "valentinegb/discord-ls");
    assert_eq!(install_directory(), "./");
}
