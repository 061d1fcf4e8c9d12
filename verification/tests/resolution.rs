use discord_ls_resolver::{
    Architecture, ArchiveKind, DirEntry, Effect, EntryKind, InstallStatus, Next, Os, PlatformKey,
    Query, Release, ReleaseAsset, ResolveError, ResolverState, Response, ServerResolver, Step,
};

/// A host with one fixed answer to each kind of query, which records every
/// call that it is asked to make.
struct ScriptedHost {
    search_path: Option<String>,
    release: Result<Release, String>,
    platform: PlatformKey,
    installed: bool,
    download: Result<(), String>,
    executable: Result<(), String>,
    listing: Option<Vec<DirEntry>>,
    calls: Vec<String>,
}

impl ScriptedHost {
    fn new() -> Self {
        ScriptedHost {
            search_path: None,
            release: Ok(release("v2", &["discord-ls-Linux-X64.zip", "discord-ls-macOS-ARM64.zip"])),
            platform: PlatformKey { os: Os::Linux, arch: Architecture::X8664 },
            installed: false,
            download: Ok(()),
            executable: Ok(()),
            listing: Some(vec![]),
            calls: vec![],
        }
    }

    fn perform(&mut self, effect: &Effect) {
        self.calls.push(match effect {
            Effect::SetStatus(status) => format!("status {:?}", status),
            Effect::RemoveTree(path) => format!("remove tree {}", path),
            Effect::RemoveFile(path) => format!("remove file {}", path),
        });
    }

    fn answer(&mut self, query: &Query) -> Response {
        match query {
            Query::SearchPath { name } => {
                self.calls.push(format!("which {}", name));
                Response::SearchPath(self.search_path.clone())
            }
            Query::LatestRelease { repository, require_assets, pre_release } => {
                self.calls.push(format!(
                    "latest release {} assets={} pre={}",
                    repository, require_assets, pre_release
                ));
                Response::LatestRelease(self.release.clone())
            }
            Query::CurrentPlatform => {
                self.calls.push("platform".to_string());
                Response::Platform(self.platform)
            }
            Query::IsFile { path } => {
                self.calls.push(format!("is file {}", path));
                Response::IsFile(self.installed)
            }
            Query::Download { url, destination, kind } => {
                self.calls.push(format!("download {} to {} as {:?}", url, destination, kind));
                Response::Downloaded(self.download.clone())
            }
            Query::MakeExecutable { path } => {
                self.calls.push(format!("make executable {}", path));
                Response::MadeExecutable(self.executable.clone())
            }
            Query::ListDirectory { path } => {
                self.calls.push(format!("list {}", path));
                Response::Listing(self.listing.clone())
            }
        }
    }

    fn resolve(&mut self, resolver: &mut ServerResolver) -> Result<String, ResolveError> {
        let mut step = resolver.begin();
        loop {
            for effect in &step.effects {
                self.perform(effect);
            }
            match step.next {
                Next::Finish(outcome) => return outcome,
                Next::Ask(query) => {
                    let response = self.answer(&query);
                    step = resolver.advance(response);
                }
            }
        }
    }
}

fn release(version: &str, assets: &[&str]) -> Release {
    Release {
        version: version.to_string(),
        assets: assets
            .iter()
            .map(|name| ReleaseAsset {
                name: name.to_string(),
                download_url: format!("https://example.test/{}/{}", version, name),
            })
            .collect(),
    }
}

fn entry(name: &str, kind: EntryKind) -> DirEntry {
    DirEntry { name: name.to_string(), kind }
}

fn resolved(path: &str) -> ResolverState {
    ResolverState::Resolved { path: path.to_string() }
}

#[test]
fn new_resolver_is_idle_and_remembers_nothing() {
    let resolver = ServerResolver::new();
    assert_eq!(resolver.state(), &ResolverState::Idle);
    assert_eq!(resolver.cached_path(), None);
}

#[test]
fn cached_path_is_returned_without_any_host_call() {
    let mut host = ScriptedHost::new();
    host.search_path = Some("/usr/bin/discord-ls".to_string());
    let mut resolver = ServerResolver::new();
    assert_eq!(host.resolve(&mut resolver), Ok("/usr/bin/discord-ls".to_string()));

    let mut silent = ScriptedHost::new();
    assert_eq!(silent.resolve(&mut resolver), Ok("/usr/bin/discord-ls".to_string()));
    assert_eq!(silent.calls, Vec::<String>::new());
    assert_eq!(resolver.cached_path(), Some("/usr/bin/discord-ls".to_string()));
}

#[test]
fn begin_with_cached_path_is_a_bare_finish() {
    let mut host = ScriptedHost::new();
    host.search_path = Some("/opt/discord-ls".to_string());
    let mut resolver = ServerResolver::new();
    host.resolve(&mut resolver).unwrap();
    assert_eq!(
        resolver.begin(),
        Step { effects: vec![], next: Next::Finish(Ok("/opt/discord-ls".to_string())) }
    );
    assert_eq!(resolver.state(), &resolved("/opt/discord-ls"));
}

#[test]
fn search_path_hit_is_returned_and_cached_without_network() {
    let mut host = ScriptedHost::new();
    host.search_path = Some("/usr/local/bin/discord-ls".to_string());
    let mut resolver = ServerResolver::new();
    assert_eq!(host.resolve(&mut resolver), Ok("/usr/local/bin/discord-ls".to_string()));
    assert_eq!(host.calls, vec!["which discord-ls"]);
    assert_eq!(resolver.cached_path(), Some("/usr/local/bin/discord-ls".to_string()));
}

#[test]
fn first_step_asks_the_search_path() {
    let mut resolver = ServerResolver::new();
    assert_eq!(
        resolver.begin(),
        Step { effects: vec![], next: Next::Ask(Query::SearchPath { name: "discord-ls".to_string() }) }
    );
    assert_eq!(resolver.state(), &ResolverState::AwaitingSearchPath);
}

#[test]
fn search_path_miss_announces_the_check_and_asks_for_the_release() {
    let mut resolver = ServerResolver::new();
    resolver.begin();
    assert_eq!(
        resolver.advance(Response::SearchPath(None)),
        Step {
            effects: vec![Effect::SetStatus(InstallStatus::CheckingForUpdate)],
            next: Next::Ask(Query::LatestRelease {
                repository: "valentinegb/discord-ls".to_string(),
                require_assets: true,
                pre_release: false,
            }),
        }
    );
    assert_eq!(resolver.state(), &ResolverState::AwaitingRelease);
}

#[test]
fn release_without_assets_fails_as_no_release() {
    let mut host = ScriptedHost::new();
    host.release = Ok(release("v2", &[]));
    let mut resolver = ServerResolver::new();
    let outcome = host.resolve(&mut resolver);
    assert_eq!(outcome, Err(ResolveError::NoRelease));
    assert_eq!(outcome.unwrap_err().message(), "no release found");
    assert_eq!(
        host.calls,
        vec![
            "which discord-ls",
            "status CheckingForUpdate",
            "latest release valentinegb/discord-ls assets=true pre=false",
        ]
    );
    assert_eq!(resolver.cached_path(), None);
    assert_eq!(resolver.state(), &ResolverState::Idle);
}

#[test]
fn failed_release_lookup_passes_the_host_message_on() {
    let mut host = ScriptedHost::new();
    host.release = Err("no release found".to_string());
    let mut resolver = ServerResolver::new();
    assert_eq!(host.resolve(&mut resolver), Err(ResolveError::Host("no release found".to_string())));
    assert_eq!(resolver.cached_path(), None);
}

#[test]
fn missing_platform_asset_fails_without_download() {
    let mut host = ScriptedHost::new();
    host.release = Ok(release("v2", &["discord-ls-macOS-ARM64.zip", "discord-ls-Windows-X64.zip"]));
    let mut resolver = ServerResolver::new();
    let outcome = host.resolve(&mut resolver);
    assert_eq!(outcome, Err(ResolveError::NoAsset));
    assert_eq!(
        outcome.unwrap_err().message(),
        "no available release asset for current platform"
    );
    assert_eq!(
        host.calls,
        vec![
            "which discord-ls",
            "status CheckingForUpdate",
            "latest release valentinegb/discord-ls assets=true pre=false",
            "platform",
            "is file v2/discord-ls",
            "status Downloading",
        ]
    );
    assert_eq!(resolver.cached_path(), None);
}

#[test]
fn installed_version_skips_download_and_still_sweeps() {
    let mut host = ScriptedHost::new();
    host.installed = true;
    host.listing = Some(vec![entry("v1", EntryKind::Directory), entry("v2", EntryKind::Directory)]);
    let mut resolver = ServerResolver::new();
    assert_eq!(host.resolve(&mut resolver), Ok("v2/discord-ls".to_string()));
    assert_eq!(
        host.calls,
        vec![
            "which discord-ls",
            "status CheckingForUpdate",
            "latest release valentinegb/discord-ls assets=true pre=false",
            "platform",
            "is file v2/discord-ls",
            "list ./",
            "remove tree ./v1",
            "status Idle",
        ]
    );
    assert_eq!(resolver.cached_path(), Some("v2/discord-ls".to_string()));
}

#[test]
fn installed_version_needs_no_supported_architecture() {
    let mut host = ScriptedHost::new();
    host.installed = true;
    host.platform = PlatformKey { os: Os::Linux, arch: Architecture::X86 };
    let mut resolver = ServerResolver::new();
    assert_eq!(host.resolve(&mut resolver), Ok("v2/discord-ls".to_string()));
}

#[test]
fn remote_resolution_removes_v1_and_keeps_v2() {
    let mut host = ScriptedHost::new();
    host.listing = Some(vec![
        entry("v1", EntryKind::Directory),
        entry("v2", EntryKind::Directory),
        entry("stale.zip", EntryKind::File),
    ]);
    let mut resolver = ServerResolver::new();
    assert_eq!(host.resolve(&mut resolver), Ok("v2/discord-ls".to_string()));
    assert_eq!(
        host.calls,
        vec![
            "which discord-ls",
            "status CheckingForUpdate",
            "latest release valentinegb/discord-ls assets=true pre=false",
            "platform",
            "is file v2/discord-ls",
            "status Downloading",
            "download https://example.test/v2/discord-ls-Linux-X64.zip to v2 as Zip",
            "make executable v2/discord-ls",
            "list ./",
            "remove tree ./v1",
            "remove file ./stale.zip",
            "status Idle",
        ]
    );
    assert!(!host.calls.iter().any(|call| call.ends_with("./v2")));
    assert_eq!(resolver.state(), &resolved("v2/discord-ls"));
}

#[test]
fn windows_binary_carries_the_exe_suffix() {
    let mut host = ScriptedHost::new();
    host.platform = PlatformKey { os: Os::Windows, arch: Architecture::Aarch64 };
    host.release = Ok(release("v3", &["discord-ls-Windows-ARM64.zip"]));
    let mut resolver = ServerResolver::new();
    assert_eq!(host.resolve(&mut resolver), Ok("v3/discord-ls.exe".to_string()));
    assert!(host.calls.contains(&"is file v3/discord-ls.exe".to_string()));
    assert!(host
        .calls
        .contains(&"download https://example.test/v3/discord-ls-Windows-ARM64.zip to v3 as Zip".to_string()));
    assert!(host.calls.contains(&"make executable v3/discord-ls.exe".to_string()));
}

#[test]
fn unsupported_architecture_fails_before_any_download() {
    let mut host = ScriptedHost::new();
    host.platform = PlatformKey { os: Os::Linux, arch: Architecture::X86 };
    let mut resolver = ServerResolver::new();
    let outcome = host.resolve(&mut resolver);
    assert_eq!(outcome, Err(ResolveError::UnsupportedArchitecture(Architecture::X86)));
    assert_eq!(outcome.unwrap_err().message(), "unsupported architecture: Architecture::X86");
    assert!(!host.calls.iter().any(|call| call.starts_with("download")));
    assert_eq!(host.calls.last().unwrap(), "status Downloading");
    assert_eq!(resolver.cached_path(), None);
}

#[test]
fn failed_download_passes_the_host_message_on() {
    let mut host = ScriptedHost::new();
    host.download = Err("connection reset".to_string());
    let mut resolver = ServerResolver::new();
    assert_eq!(host.resolve(&mut resolver), Err(ResolveError::Host("connection reset".to_string())));
    assert!(!host.calls.iter().any(|call| call.starts_with("make executable")));
    assert_eq!(resolver.state(), &ResolverState::Idle);
}

#[test]
fn failed_executable_mark_passes_the_host_message_on() {
    let mut host = ScriptedHost::new();
    host.executable = Err("permission denied".to_string());
    let mut resolver = ServerResolver::new();
    assert_eq!(host.resolve(&mut resolver), Err(ResolveError::Host("permission denied".to_string())));
    assert!(!host.calls.iter().any(|call| call.starts_with("list")));
    assert_eq!(resolver.cached_path(), None);
}

#[test]
fn unreadable_directory_is_no_failure() {
    let mut host = ScriptedHost::new();
    host.listing = None;
    let mut resolver = ServerResolver::new();
    assert_eq!(host.resolve(&mut resolver), Ok("v2/discord-ls".to_string()));
    assert_eq!(&host.calls[host.calls.len() - 2..], ["list ./", "status Idle"]);
}

#[test]
fn failure_leaves_the_next_resolution_to_start_afresh() {
    let mut host = ScriptedHost::new();
    host.download = Err("timed out".to_string());
    let mut resolver = ServerResolver::new();
    assert!(host.resolve(&mut resolver).is_err());

    let mut second = ScriptedHost::new();
    assert_eq!(second.resolve(&mut resolver), Ok("v2/discord-ls".to_string()));
    assert_eq!(second.calls[0], "which discord-ls");
}

#[test]
fn download_step_names_url_destination_and_kind() {
    let mut resolver = ServerResolver::new();
    resolver.begin();
    resolver.advance(Response::SearchPath(None));
    resolver.advance(Response::LatestRelease(Ok(release("v7", &["discord-ls-macOS-X64.zip"]))));
    resolver.advance(Response::Platform(PlatformKey { os: Os::Mac, arch: Architecture::X8664 }));
    assert_eq!(
        resolver.advance(Response::IsFile(false)),
        Step {
            effects: vec![Effect::SetStatus(InstallStatus::Downloading)],
            next: Next::Ask(Query::Download {
                url: "https://example.test/v7/discord-ls-macOS-X64.zip".to_string(),
                destination: "v7".to_string(),
                kind: ArchiveKind::Zip,
            }),
        }
    );
    assert_eq!(
        resolver.state(),
        &ResolverState::AwaitingDownload {
            version: "v7".to_string(),
            path: "v7/discord-ls".to_string()
        }
    );
}

#[test]
fn answer_of_the_wrong_kind_is_rejected() {
    let mut resolver = ServerResolver::new();
    resolver.begin();
    assert_eq!(
        resolver.advance(Response::IsFile(true)),
        Step { effects: vec![], next: Next::Finish(Err(ResolveError::UnexpectedResponse)) }
    );
    assert_eq!(resolver.state(), &ResolverState::Idle);
}

#[test]
fn answer_without_a_query_is_rejected() {
    let mut resolver = ServerResolver::new();
    assert_eq!(
        resolver.advance(Response::SearchPath(Some("/bin/discord-ls".to_string()))),
        Step { effects: vec![], next: Next::Finish(Err(ResolveError::UnexpectedResponse)) }
    );
    assert_eq!(resolver.cached_path(), None);
}

#[test]
fn late_answer_never_replaces_the_cached_path() {
    let mut host = ScriptedHost::new();
    host.search_path = Some("/usr/bin/discord-ls".to_string());
    let mut resolver = ServerResolver::new();
    host.resolve(&mut resolver).unwrap();
    assert_eq!(
        resolver.advance(Response::SearchPath(Some("/tmp/other".to_string()))),
        Step { effects: vec![], next: Next::Finish(Err(ResolveError::UnexpectedResponse)) }
    );
    assert_eq!(resolver.cached_path(), Some("/usr/bin/discord-ls".to_string()));
}

#[test]
fn begin_gives_up_an_open_resolution() {
    let mut resolver = ServerResolver::new();
    resolver.begin();
    resolver.advance(Response::SearchPath(None));
    assert_eq!(
        resolver.begin(),
        Step { effects: vec![], next: Next::Ask(Query::SearchPath { name: "discord-ls".to_string() }) }
    );
    assert_eq!(resolver.state(), &ResolverState::AwaitingSearchPath);
}
