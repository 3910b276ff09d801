use mojo_extension::command::language_server_command;
use mojo_extension::names::{Arch, Os};
use mojo_extension::resolver::{
    Action, Event, InstallationStatus, Phase, Release, ReleaseAsset, Resolver, WorkDirError,
};

fn release_1_2_3() -> Release {
    Release {
        version: "1.2.3".to_string(),
        assets: vec![
            ReleaseAsset {
                name: "magic-aarch64-macos.tar.gz".to_string(),
                download_url: "https://example.invalid/mac".to_string(),
            },
            ReleaseAsset {
                name: "magic-x86_64-linux.tar.gz".to_string(),
                download_url: "https://example.invalid/linux".to_string(),
            },
        ],
    }
}

fn start() -> Event {
    Event::Start { arch: Arch::X8664, os: Os::Linux }
}

#[test]
fn cached_path_fast_path() {
    let mut r = Resolver {
        cached_binary_path: Some("magic-1.2.3/magic".to_string()),
        phase: Phase::Idle,
    };
    let a1 = r.step(start());
    assert_eq!(a1, Action::StatFile { path: "magic-1.2.3/magic".to_string() });
    let a2 = r.step(Event::FileStat { is_file: true });
    assert_eq!(a2, Action::Finish { path: "magic-1.2.3/magic".to_string() });
    assert_eq!(r.cached_binary_path, Some("magic-1.2.3/magic".to_string()));
    assert_eq!(r.phase, Phase::Idle);
}

#[test]
fn stale_cache_proceeds_to_lookup() {
    let mut r = Resolver {
        cached_binary_path: Some("magic-1.0.0/magic".to_string()),
        phase: Phase::Idle,
    };
    let a1 = r.step(start());
    assert_eq!(a1, Action::StatFile { path: "magic-1.0.0/magic".to_string() });
    let a2 = r.step(Event::FileStat { is_file: false });
    assert_eq!(a2, Action::ReportStatus { status: InstallationStatus::CheckingForUpdate });
    let a3 = r.step(Event::StatusReported);
    assert_eq!(
        a3,
        Action::FetchLatestRelease {
            repo: "modular/mojo".to_string(),
            require_assets: true,
            pre_release: false,
        }
    );
}

#[test]
fn fresh_download_walks_the_full_path() {
    let mut r = Resolver::new();
    let a1 = r.step(start());
    assert_eq!(a1, Action::ReportStatus { status: InstallationStatus::CheckingForUpdate });
    let a2 = r.step(Event::StatusReported);
    assert_eq!(
        a2,
        Action::FetchLatestRelease {
            repo: "modular/mojo".to_string(),
            require_assets: true,
            pre_release: false,
        }
    );
    let a3 = r.step(Event::ReleaseFetched { result: Ok(release_1_2_3()) });
    assert_eq!(a3, Action::StatFile { path: "magic-1.2.3/magic".to_string() });
    let a4 = r.step(Event::FileStat { is_file: false });
    assert_eq!(a4, Action::ReportStatus { status: InstallationStatus::Downloading });
    let a5 = r.step(Event::StatusReported);
    assert_eq!(
        a5,
        Action::Download {
            url: "https://example.invalid/linux".to_string(),
            directory: "magic-1.2.3".to_string(),
        }
    );
    let a6 = r.step(Event::DownloadFinished { result: Ok(()) });
    assert_eq!(a6, Action::ListWorkDir);
    let names = vec![
        Some("magic-1.2.3".to_string()),
        Some("magic-1.0.0".to_string()),
        None,
        Some("scratch".to_string()),
    ];
    let a7 = r.step(Event::WorkDirListed { result: Ok(names) });
    assert_eq!(a7, Action::RemoveStale { indices: vec![1, 2, 3] });
    let a8 = r.step(Event::StaleRemoved);
    assert_eq!(a8, Action::Finish { path: "magic-1.2.3/magic".to_string() });
    assert_eq!(r.cached_binary_path, Some("magic-1.2.3/magic".to_string()));
    assert_eq!(r.phase, Phase::Idle);
}

#[test]
fn already_installed_release_skips_download() {
    let mut r = Resolver::new();
    r.step(start());
    r.step(Event::StatusReported);
    let a = r.step(Event::ReleaseFetched { result: Ok(release_1_2_3()) });
    assert_eq!(a, Action::StatFile { path: "magic-1.2.3/magic".to_string() });
    let a = r.step(Event::FileStat { is_file: true });
    assert_eq!(a, Action::Finish { path: "magic-1.2.3/magic".to_string() });
    assert_eq!(r.cached_binary_path, Some("magic-1.2.3/magic".to_string()));
}

#[test]
fn missing_asset_fails_with_expected_name() {
    let mut r = Resolver::new();
    r.step(Event::Start { arch: Arch::Aarch64, os: Os::Windows });
    r.step(Event::StatusReported);
    let a = r.step(Event::ReleaseFetched { result: Ok(release_1_2_3()) });
    assert_eq!(
        a,
        Action::Fail {
            message: "no asset found matching 'magic-aarch64-windows.exe'".to_string(),
        }
    );
    assert_eq!(r.cached_binary_path, None);
    assert_eq!(r.phase, Phase::Idle);
}

#[test]
fn release_lookup_error_is_propagated() {
    let mut r = Resolver::new();
    r.step(start());
    r.step(Event::StatusReported);
    let a = r.step(Event::ReleaseFetched { result: Err("rate limited".to_string()) });
    assert_eq!(a, Action::Fail { message: "rate limited".to_string() });
}

#[test]
fn download_error_is_wrapped() {
    let mut r = Resolver::new();
    r.step(start());
    r.step(Event::StatusReported);
    r.step(Event::ReleaseFetched { result: Ok(release_1_2_3()) });
    r.step(Event::FileStat { is_file: false });
    r.step(Event::StatusReported);
    let a = r.step(Event::DownloadFinished { result: Err("connection reset".to_string()) });
    assert_eq!(
        a,
        Action::Fail { message: "failed to download file: connection reset".to_string() }
    );
    assert_eq!(r.cached_binary_path, None);
}

#[test]
fn listing_error_is_wrapped() {
    let mut r = Resolver::new();
    r.step(start());
    r.step(Event::StatusReported);
    r.step(Event::ReleaseFetched { result: Ok(release_1_2_3()) });
    r.step(Event::FileStat { is_file: false });
    r.step(Event::StatusReported);
    r.step(Event::DownloadFinished { result: Ok(()) });
    let a = r.step(Event::WorkDirListed {
        result: Err(WorkDirError::Listing("permission denied".to_string())),
    });
    assert_eq!(
        a,
        Action::Fail {
            message: "failed to list working directory permission denied".to_string(),
        }
    );
}

#[test]
fn entry_error_is_wrapped() {
    let mut r = Resolver::new();
    r.step(start());
    r.step(Event::StatusReported);
    r.step(Event::ReleaseFetched { result: Ok(release_1_2_3()) });
    r.step(Event::FileStat { is_file: false });
    r.step(Event::StatusReported);
    r.step(Event::DownloadFinished { result: Ok(()) });
    let a = r.step(Event::WorkDirListed {
        result: Err(WorkDirError::Entry("stale handle".to_string())),
    });
    assert_eq!(
        a,
        Action::Fail { message: "failed to load directory entry stale handle".to_string() }
    );
}

#[test]
fn cleanup_keeps_only_version_dir() {
    let mut r = Resolver::new();
    r.step(start());
    r.step(Event::StatusReported);
    r.step(Event::ReleaseFetched { result: Ok(release_1_2_3()) });
    r.step(Event::FileStat { is_file: false });
    r.step(Event::StatusReported);
    r.step(Event::DownloadFinished { result: Ok(()) });
    let names = vec![
        Some("old-thing".to_string()),
        Some("magic-1.2.3".to_string()),
        Some("magic-1.2.3-rc1".to_string()),
    ];
    let a = r.step(Event::WorkDirListed { result: Ok(names) });
    // only the entry named exactly like the version directory survives
    assert_eq!(a, Action::RemoveStale { indices: vec![0, 2] });
}

#[test]
fn resolution_is_idempotent() {
    let mut r = Resolver::new();
    r.step(start());
    r.step(Event::StatusReported);
    r.step(Event::ReleaseFetched { result: Ok(release_1_2_3()) });
    r.step(Event::FileStat { is_file: false });
    r.step(Event::StatusReported);
    r.step(Event::DownloadFinished { result: Ok(()) });
    r.step(Event::WorkDirListed { result: Ok(vec![Some("magic-1.2.3".to_string())]) });
    let first = r.step(Event::StaleRemoved);
    assert_eq!(first, Action::Finish { path: "magic-1.2.3/magic".to_string() });

    // second resolution: the binary is still present, nothing else happens
    let a1 = r.step(start());
    assert_eq!(a1, Action::StatFile { path: "magic-1.2.3/magic".to_string() });
    let second = r.step(Event::FileStat { is_file: true });
    assert_eq!(second, Action::Finish { path: "magic-1.2.3/magic".to_string() });
    assert_eq!(r.cached_binary_path, Some("magic-1.2.3/magic".to_string()));
}

#[test]
fn accepts_event_follows_the_phase() {
    let r = Resolver::new();
    assert!(r.accepts_event(&start()));
    assert!(!r.accepts_event(&Event::StatusReported));
    let mut r = Resolver::new();
    r.step(start());
    assert!(r.accepts_event(&Event::StatusReported));
    assert!(!r.accepts_event(&Event::StaleRemoved));
}

#[test]
fn command_selects_language_server_subcommand() {
    let c = language_server_command("magic-1.2.3/magic".to_string());
    assert_eq!(c.command, "magic-1.2.3/magic".to_string());
    assert_eq!(c.args, vec!["run".to_string(), "mojo-lsp-server".to_string()]);
    assert!(c.env.is_empty());
}
