use discord_ls_resolver::{
    language_server_command, launch_command, Architecture, LaunchCommand, ResolveError,
};

#[test]
fn launch_command_wraps_the_path() {
    let command = launch_command("v1/discord-ls".to_string());
    assert_eq!(
        command,
        LaunchCommand { command: "v1/discord-ls".to_string(), args: vec![], env: vec![] }
    );
}

#[test]
fn resolved_path_becomes_a_command() {
    let answer = language_server_command(Ok("/usr/bin/discord-ls".to_string()));
    assert_eq!(
        answer,
        Ok(LaunchCommand { command: "/usr/bin/discord-ls".to_string(), args: vec![], env: vec![] })
    );
}

#[test]
fn error_becomes_its_message() {
    assert_eq!(
        language_server_command(Err(ResolveError::NoAsset)),
        Err("no available release asset for current platform".to_string())
    );
}

#[test]
fn message_of_unsupported_architecture() {
    assert_eq!(
        ResolveError::UnsupportedArchitecture(Architecture::X86).message(),
        "unsupported architecture: Architecture::X86"
    );
    assert_eq!(
        ResolveError::UnsupportedArchitecture(Architecture::Aarch64).message(),
        "unsupported architecture: Architecture::Aarch64"
    );
    assert_eq!(
        ResolveError::UnsupportedArchitecture(Architecture::X8664).message(),
        "unsupported architecture: Architecture::X8664"
    );
}

#[test]
fn message_of_missing_release() {
    assert_eq!(ResolveError::NoRelease.message(), "no release found");
}

#[test]
fn message_of_missing_asset() {
    assert_eq!(
        ResolveError::NoAsset.message(),
        "no available release asset for current platform"
    );
}

#[test]
fn message_of_host_failure_is_the_host_text() {
    assert_eq!(ResolveError::Host("connection reset".to_string()).message(), "connection reset");
    assert_eq!(ResolveError::Host(String::new()).message(), "");
}

#[test]
fn message_of_unexpected_response() {
    assert_eq!(ResolveError::UnexpectedResponse.message(), "unexpected answer from the host");
}
