use discord_ls_resolver::{Release, ReleaseAsset};

fn asset(name: &str, url: &str) -> ReleaseAsset {
    ReleaseAsset { name: name.to_string(), download_url: url.to_string() }
}

#[test]
fn download_url_of_named_asset() {
    let release = Release {
        version: "v1".to_string(),
        assets: vec![
            asset("discord-ls-Linux-X64.zip", "https://example.test/linux"),
            asset("discord-ls-macOS-ARM64.zip", "https://example.test/mac"),
        ],
    };
    assert_eq!(
        release.download_url(&"discord-ls-macOS-ARM64.zip".to_string()),
        Some("https://example.test/mac".to_string())
    );
}

#[test]
fn download_url_takes_the_first_of_equal_names() {
    let release = Release {
        version: "v1".to_string(),
        assets: vec![
            asset("other.zip", "https://example.test/0"),
            asset("same.zip", "https://example.test/1"),
            asset("same.zip", "https://example.test/2"),
        ],
    };
    assert_eq!(
        release.download_url(&"same.zip".to_string()),
        Some("https://example.test/1".to_string())
    );
}

#[test]
fn download_url_is_missing_without_the_name() {
    let release = Release {
        version: "v1".to_string(),
        assets: vec![asset("discord-ls-Linux-X64.zip", "https://example.test/linux")],
    };
    assert_eq!(release.download_url(&"discord-ls-Linux-ARM64.zip".to_string()), None);
    assert_eq!(release.download_url(&"discord-ls-linux-x64.zip".to_string()), None);
}

#[test]
fn download_url_of_empty_release() {
    let release = Release { version: "v1".to_string(), assets: vec![] };
    assert_eq!(release.download_url(&"discord-ls-Linux-X64.zip".to_string()), None);
    assert!(!release.has_assets());
}

#[test]
fn has_assets_with_one_asset() {
    let release = Release { version: "v1".to_string(), assets: vec![asset("a", "b")] };
    assert!(release.has_assets());
}
