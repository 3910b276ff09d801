//! The binary resolver, as a state machine. Each call of [`Resolver::step`]
//! consumes the outcome of the previous host operation (an [`Event`]) and
//! returns the next operation to perform (an [`Action`]). The unverified
//! shell around the library performs the file checks, the release lookup,
//! the status reports and the download, and feeds the outcomes back; every
//! decision in between is made, and specified, here.

use vstd::prelude::*;
use crate::names::{Os, Arch, asset_name_spec, version_dir_spec, binary_path_spec};
use crate::names::{asset_name, version_dir, binary_path};
use crate::text::concat2;

verus! {

/// A downloadable file attached to a release.
#[derive(Clone, Debug, PartialEq, Eq)]
pub struct ReleaseAsset {
    pub name: String,
    pub download_url: String,
}

/// A qualifying release of the upstream repository: its version string and
/// the assets attached to it.
#[derive(Clone, Debug, PartialEq, Eq)]
pub struct Release {
    pub version: String,
    pub assets: Vec<ReleaseAsset>,
}

/// The installation states reported to the host. At most one resolution is
/// in flight, and it reports `CheckingForUpdate` before `Downloading`.
#[derive(Clone, Copy, Debug, PartialEq, Eq, Structural)]
pub enum InstallationStatus {
    CheckingForUpdate,
    Downloading,
}

/// Why listing the working directory failed: the listing itself, or the
/// reading of one of its entries.
#[derive(Clone, Debug, PartialEq, Eq)]
pub enum WorkDirError {
    Listing(String),
    Entry(String),
}

/// The outcome of a host operation, handed to [`Resolver::step`].
#[derive(Debug, PartialEq, Eq)]
pub enum Event {
    /// Begin a resolution on the given architecture and platform.
    Start { arch: Arch, os: Os },
    /// Whether the path of the pending `StatFile` names a regular file.
    FileStat { is_file: bool },
    /// The pending `ReportStatus` was delivered.
    StatusReported,
    /// The latest qualifying release, or the lookup's error.
    ReleaseFetched { result: Result<Release, String> },
    /// The outcome of the pending `Download`.
    DownloadFinished { result: Result<(), String> },
    /// The names of the working directory's entries (`None` for a name that
    /// could not be read as text), or how listing them failed.
    WorkDirListed { result: Result<Vec<Option<String>>, WorkDirError> },
    /// The pending `RemoveStale` was carried out (failures ignored).
    StaleRemoved,
}

/// The next host operation, returned by [`Resolver::step`].
#[derive(Clone, Debug, PartialEq, Eq)]
pub enum Action {
    /// Check whether `path` names a regular file; answer with `FileStat`.
    StatFile { path: String },
    /// Report the installation status; answer with `StatusReported`.
    ReportStatus { status: InstallationStatus },
    /// Fetch the latest release of `repo` with the given filters; answer
    /// with `ReleaseFetched`.
    FetchLatestRelease { repo: String, require_assets: bool, pre_release: bool },
    /// Download the gzip tarball at `url` and extract it into `directory`;
    /// answer with `DownloadFinished`.
    Download { url: String, directory: String },
    /// List the working directory; answer with `WorkDirListed`.
    ListWorkDir,
    /// Remove the entries at these indices of the listing just handed in,
    /// ignoring individual failures; answer with `StaleRemoved`.
    RemoveStale { indices: Vec<usize> },
    /// Resolution succeeded: `path` is the binary. Terminal.
    Finish { path: String },
    /// Resolution failed with this message. Terminal.
    Fail { message: String },
}

/// Where a resolution stands: which answer the resolver is waiting for,
/// and what it has computed so far.
#[derive(Clone, Debug, PartialEq, Eq)]
pub enum Phase {
    /// No resolution in flight.
    Idle,
    /// Waiting to hear whether the cached binary still exists.
    CacheCheck { arch: Arch, os: Os, path: String },
    /// Waiting for the `CheckingForUpdate` report to be delivered.
    ReportingCheck { arch: Arch, os: Os },
    /// Waiting for the release lookup.
    Fetching { arch: Arch, os: Os },
    /// Waiting to hear whether the binary of the fetched release is
    /// already installed.
    BinaryCheck { url: String, version_dir: String, binary_path: String },
    /// Waiting for the `Downloading` report to be delivered.
    ReportingDownload { url: String, version_dir: String, binary_path: String },
    /// Waiting for the download to finish.
    Downloading { version_dir: String, binary_path: String },
    /// Waiting for the working directory listing.
    Listing { version_dir: String, binary_path: String },
    /// Waiting for the stale entries to be removed.
    Removing { binary_path: String },
}

/// The resolver: the cached path of a previously resolved binary, and the
/// phase of the resolution in flight, if any.
#[derive(Clone, Debug, PartialEq, Eq)]
pub struct Resolver {
    pub cached_binary_path: Option<String>,
    pub phase: Phase,
}

/// `k` is the index of the first asset of `assets` named `name`.
pub open spec fn is_first_match(assets: Seq<ReleaseAsset>, name: Seq<char>, k: int) -> bool {
    &&& 0 <= k < assets.len()
    &&& assets[k].name@ == name
    &&& forall|j: int| 0 <= j < k ==> assets[j].name@ != name
}

/// Some asset of `assets` is named `name`.
pub open spec fn has_match(assets: Seq<ReleaseAsset>, name: Seq<char>) -> bool {
    exists|k: int| is_first_match(assets, name, k)
}

/// The error when no asset carries the expected name: it names that asset.
pub open spec fn no_asset_message(name: Seq<char>) -> Seq<char> {
    "no asset found matching '"@ + name + "'"@
}

/// The error when the download-and-extract utility fails.
pub open spec fn download_failed_message(e: Seq<char>) -> Seq<char> {
    "failed to download file: "@ + e
}

/// The error when the working directory cannot be listed.
pub open spec fn listing_failed_message(e: Seq<char>) -> Seq<char> {
    "failed to list working directory "@ + e
}

/// The error when a directory entry cannot be read.
pub open spec fn entry_failed_message(e: Seq<char>) -> Seq<char> {
    "failed to load directory entry "@ + e
}

/// A directory entry is stale when it is not the directory to keep; an
/// entry whose name could not be read as text is stale too.
pub open spec fn entry_is_stale(name: Option<String>, keep: Seq<char>) -> bool {
    match name {
        Some(n) => n@ != keep,
        None => true,
    }
}

/// `indices` selects exactly the stale entries of `names`: strictly
/// increasing, in bounds, and an index is selected if and only if its entry
/// is stale.
pub open spec fn stale_selection(
    names: Seq<Option<String>>,
    keep: Seq<char>,
    indices: Seq<usize>,
) -> bool {
    &&& forall|a: int, b: int| 0 <= a < b < indices.len() ==> indices[a] < indices[b]
    &&& forall|a: int| 0 <= a < indices.len() ==> indices[a] < names.len()
    &&& forall|i: int|
        0 <= i < names.len() ==> (indices.contains(i as usize) <==> entry_is_stale(names[i], keep))
}

/// The indices of the entries of `names` that are not `keep`, in order.
fn stale_indices(names: &Vec<Option<String>>, keep: &String) -> (r: Vec<usize>)
    ensures
        stale_selection(names@, keep@, r@),
{
    let mut r: Vec<usize> = Vec::new();
    let mut i: usize = 0;
    while i < names.len()
        invariant
            i <= names@.len(),
            forall|a: int, b: int| 0 <= a < b < r@.len() ==> r@[a] < r@[b],
            forall|a: int| 0 <= a < r@.len() ==> r@[a] < i,
            forall|j: int|
                0 <= j < i ==> (r@.contains(j as usize) <==> entry_is_stale(names@[j], keep@)),
        decreases names@.len() - i,
    {
        let stale = match &names[i] {
            Some(n) => !n.eq(keep),
            None => true,
        };
        if stale {
            r.push(i);
        }
        proof {
            broadcast use vstd::seq_lib::lemma_seq_contains_after_push;
        }
        i = i + 1;
    }
    r
}

/// The first asset of `assets` named `name`, if any.
fn find_asset(assets: &Vec<ReleaseAsset>, name: &String) -> (r: Option<usize>)
    ensures
        match r {
            Some(i) => is_first_match(assets@, name@, i as int),
            None => !has_match(assets@, name@),
        },
{
    let mut i: usize = 0;
    while i < assets.len()
        invariant
            i <= assets@.len(),
            forall|j: int| 0 <= j < i ==> assets@[j].name@ != name@,
        decreases assets@.len() - i,
    {
        if assets[i].name.eq(name) {
            return Some(i);
        }
        i = i + 1;
    }
    proof {
        assert forall|k: int| !is_first_match(assets@, name@, k) by {
            if 0 <= k < assets@.len() {
                assert(assets@[k].name@ != name@);
            }
        }
    }
    None
}

/// What one step of the resolver does: how the new state `post` and the
/// returned action `a` are determined by the old state `pre` and the event.
pub open spec fn step_post(pre: Resolver, event: Event, post: Resolver, a: Action) -> bool {
    match (pre.phase, event) {
        (Phase::Idle, Event::Start { arch, os }) => match pre.cached_binary_path {
            Some(p) => {
                &&& post.cached_binary_path == pre.cached_binary_path
                &&& post.phase == (Phase::CacheCheck { arch, os, path: p })
                &&& a == (Action::StatFile { path: p })
            },
            None => {
                &&& post.cached_binary_path == pre.cached_binary_path
                &&& post.phase == (Phase::ReportingCheck { arch, os })
                &&& a == (Action::ReportStatus { status: InstallationStatus::CheckingForUpdate })
            },
        },
        (Phase::CacheCheck { arch, os, path }, Event::FileStat { is_file }) => {
            if is_file {
                &&& post.cached_binary_path == pre.cached_binary_path
                &&& post.phase == Phase::Idle
                &&& a == (Action::Finish { path })
            } else {
                &&& post.cached_binary_path == pre.cached_binary_path
                &&& post.phase == (Phase::ReportingCheck { arch, os })
                &&& a == (Action::ReportStatus { status: InstallationStatus::CheckingForUpdate })
            }
        },
        (Phase::ReportingCheck { arch, os }, Event::StatusReported) => {
            &&& post.cached_binary_path == pre.cached_binary_path
            &&& post.phase == (Phase::Fetching { arch, os })
            &&& a matches Action::FetchLatestRelease { repo, require_assets, pre_release }
                && repo@ == "modular/mojo"@ && require_assets == true && pre_release == false
        },
        (Phase::Fetching { arch, os }, Event::ReleaseFetched { result }) => match result {
            Err(e) => {
                &&& post.cached_binary_path == pre.cached_binary_path
                &&& post.phase == Phase::Idle
                &&& a == (Action::Fail { message: e })
            },
            Ok(release) => {
                let name = asset_name_spec(arch, os);
                if has_match(release.assets@, name) {
                    &&& post.cached_binary_path == pre.cached_binary_path
                    &&& post.phase matches Phase::BinaryCheck { url, version_dir: d, binary_path: b }
                        && (exists|k: int|
                            is_first_match(release.assets@, name, k) && url
                                == release.assets@[k].download_url)
                        && d@ == version_dir_spec(release.version@)
                        && b@ == binary_path_spec(release.version@)
                    &&& a matches Action::StatFile { path } && path@ == binary_path_spec(
                        release.version@,
                    )
                } else {
                    &&& post.cached_binary_path == pre.cached_binary_path
                    &&& post.phase == Phase::Idle
                    &&& a matches Action::Fail { message } && message@ == no_asset_message(name)
                }
            },
        },
        (Phase::BinaryCheck { url, version_dir: d, binary_path: b }, Event::FileStat { is_file }) => {
            if is_file {
                &&& post.cached_binary_path == Some(b)
                &&& post.phase == Phase::Idle
                &&& a == (Action::Finish { path: b })
            } else {
                &&& post.cached_binary_path == pre.cached_binary_path
                &&& post.phase == (Phase::ReportingDownload {
                    url,
                    version_dir: d,
                    binary_path: b,
                })
                &&& a == (Action::ReportStatus { status: InstallationStatus::Downloading })
            }
        },
        (
            Phase::ReportingDownload { url, version_dir: d, binary_path: b },
            Event::StatusReported,
        ) => {
            &&& post.cached_binary_path == pre.cached_binary_path
            &&& post.phase == (Phase::Downloading { version_dir: d, binary_path: b })
            &&& a == (Action::Download { url, directory: d })
        },
        (
            Phase::Downloading { version_dir: d, binary_path: b },
            Event::DownloadFinished { result },
        ) => match result {
            Err(e) => {
                &&& post.cached_binary_path == pre.cached_binary_path
                &&& post.phase == Phase::Idle
                &&& a matches Action::Fail { message } && message@ == download_failed_message(e@)
            },
            Ok(_) => {
                &&& post.cached_binary_path == pre.cached_binary_path
                &&& post.phase == (Phase::Listing { version_dir: d, binary_path: b })
                &&& a == Action::ListWorkDir
            },
        },
        (Phase::Listing { version_dir: d, binary_path: b }, Event::WorkDirListed { result }) => match result {
            Err(WorkDirError::Listing(e)) => {
                &&& post.cached_binary_path == pre.cached_binary_path
                &&& post.phase == Phase::Idle
                &&& a matches Action::Fail { message } && message@ == listing_failed_message(e@)
            },
            Err(WorkDirError::Entry(e)) => {
                &&& post.cached_binary_path == pre.cached_binary_path
                &&& post.phase == Phase::Idle
                &&& a matches Action::Fail { message } && message@ == entry_failed_message(e@)
            },
            Ok(names) => {
                &&& post.cached_binary_path == pre.cached_binary_path
                &&& post.phase == (Phase::Removing { binary_path: b })
                &&& a matches Action::RemoveStale { indices } && stale_selection(
                    names@,
                    d@,
                    indices@,
                )
            },
        },
        (Phase::Removing { binary_path: b }, Event::StaleRemoved) => {
            &&& post.cached_binary_path == Some(b)
            &&& post.phase == Phase::Idle
            &&& a == (Action::Finish { path: b })
        },
        _ => true,
    }
}

impl Resolver {
    /// Which events the resolver takes in its current phase: the answer to
    /// the action its last step returned, or a `Start` when idle.
    pub open spec fn accepts(self, event: Event) -> bool {
        match (self.phase, event) {
            (Phase::Idle, Event::Start { .. }) => true,
            (Phase::CacheCheck { .. }, Event::FileStat { .. }) => true,
            (Phase::ReportingCheck { .. }, Event::StatusReported) => true,
            (Phase::Fetching { .. }, Event::ReleaseFetched { .. }) => true,
            (Phase::BinaryCheck { .. }, Event::FileStat { .. }) => true,
            (Phase::ReportingDownload { .. }, Event::StatusReported) => true,
            (Phase::Downloading { .. }, Event::DownloadFinished { .. }) => true,
            (Phase::Listing { .. }, Event::WorkDirListed { .. }) => true,
            (Phase::Removing { .. }, Event::StaleRemoved) => true,
            _ => false,
        }
    }

    /// A fresh resolver: nothing cached, nothing in flight.
    pub fn new() -> (r: Resolver)
        ensures
            r.cached_binary_path == Option::<String>::None,
            r.phase == Phase::Idle,
    {
        Resolver { cached_binary_path: None, phase: Phase::Idle }
    }

    /// Exec mirror of [`Resolver::accepts`], for the unverified shell to
    /// test before stepping.
    pub fn accepts_event(&self, event: &Event) -> (b: bool)
        ensures
            b == self.accepts(*event),
    {
        match (&self.phase, event) {
            (Phase::Idle, Event::Start { .. }) => true,
            (Phase::CacheCheck { .. }, Event::FileStat { .. }) => true,
            (Phase::ReportingCheck { .. }, Event::StatusReported) => true,
            (Phase::Fetching { .. }, Event::ReleaseFetched { .. }) => true,
            (Phase::BinaryCheck { .. }, Event::FileStat { .. }) => true,
            (Phase::ReportingDownload { .. }, Event::StatusReported) => true,
            (Phase::Downloading { .. }, Event::DownloadFinished { .. }) => true,
            (Phase::Listing { .. }, Event::WorkDirListed { .. }) => true,
            (Phase::Removing { .. }, Event::StaleRemoved) => true,
            _ => false,
        }
    }

    /// Consume the outcome of the previous host operation and return the
    /// next one. [`step_post`] states the whole transition.
    pub fn step(&mut self, event: Event) -> (a: Action)
        requires
            old(self).accepts(event),
        ensures
            step_post(*old(self), event, *final(self), a),
    {
        let (new_phase, new_cache, action): (Phase, Option<String>, Action) = match (
            &self.phase,
            event,
        ) {
            (Phase::Idle, Event::Start { arch, os }) => match &self.cached_binary_path {
                Some(p) => (
                    Phase::CacheCheck { arch, os, path: p.clone() },
                    None,
                    Action::StatFile { path: p.clone() },
                ),
                None => (
                    Phase::ReportingCheck { arch, os },
                    None,
                    Action::ReportStatus { status: InstallationStatus::CheckingForUpdate },
                ),
            },
            (Phase::CacheCheck { arch, os, path }, Event::FileStat { is_file }) => {
                if is_file {
                    (Phase::Idle, None, Action::Finish { path: path.clone() })
                } else {
                    (
                        Phase::ReportingCheck { arch: *arch, os: *os },
                        None,
                        Action::ReportStatus { status: InstallationStatus::CheckingForUpdate },
                    )
                }
            },
            (Phase::ReportingCheck { arch, os }, Event::StatusReported) => (
                Phase::Fetching { arch: *arch, os: *os },
                None,
                Action::FetchLatestRelease {
                    repo: "modular/mojo".to_owned(),
                    require_assets: true,
                    pre_release: false,
                },
            ),
            (Phase::Fetching { arch, os }, Event::ReleaseFetched { result }) => match result {
                Err(e) => (Phase::Idle, None, Action::Fail { message: e }),
                Ok(release) => {
                    let name = asset_name(*arch, *os);
                    match find_asset(&release.assets, &name) {
                        Some(i) => {
                            let d = version_dir(release.version.as_str());
                            let b = binary_path(release.version.as_str());
                            let url = release.assets[i].download_url.clone();
                            (
                                Phase::BinaryCheck {
                                    url,
                                    version_dir: d,
                                    binary_path: b.clone(),
                                },
                                None,
                                Action::StatFile { path: b },
                            )
                        },
                        None => {
                            let head = concat2("no asset found matching '", name.as_str());
                            let msg = concat2(head.as_str(), "'");
                            (Phase::Idle, None, Action::Fail { message: msg })
                        },
                    }
                },
            },
            (
                Phase::BinaryCheck { url, version_dir: d, binary_path: b },
                Event::FileStat { is_file },
            ) => {
                if is_file {
                    (Phase::Idle, Some(b.clone()), Action::Finish { path: b.clone() })
                } else {
                    (
                        Phase::ReportingDownload {
                            url: url.clone(),
                            version_dir: d.clone(),
                            binary_path: b.clone(),
                        },
                        None,
                        Action::ReportStatus { status: InstallationStatus::Downloading },
                    )
                }
            },
            (
                Phase::ReportingDownload { url, version_dir: d, binary_path: b },
                Event::StatusReported,
            ) => (
                Phase::Downloading { version_dir: d.clone(), binary_path: b.clone() },
                None,
                Action::Download { url: url.clone(), directory: d.clone() },
            ),
            (
                Phase::Downloading { version_dir: d, binary_path: b },
                Event::DownloadFinished { result },
            ) => match result {
                Err(e) => (
                    Phase::Idle,
                    None,
                    Action::Fail { message: concat2("failed to download file: ", e.as_str()) },
                ),
                Ok(_) => (
                    Phase::Listing { version_dir: d.clone(), binary_path: b.clone() },
                    None,
                    Action::ListWorkDir,
                ),
            },
            (
                Phase::Listing { version_dir: d, binary_path: b },
                Event::WorkDirListed { result },
            ) => match result {
                Err(WorkDirError::Listing(e)) => (
                    Phase::Idle,
                    None,
                    Action::Fail {
                        message: concat2("failed to list working directory ", e.as_str()),
                    },
                ),
                Err(WorkDirError::Entry(e)) => (
                    Phase::Idle,
                    None,
                    Action::Fail {
                        message: concat2("failed to load directory entry ", e.as_str()),
                    },
                ),
                Ok(names) => {
                    let indices = stale_indices(&names, d);
                    (
                        Phase::Removing { binary_path: b.clone() },
                        None,
                        Action::RemoveStale { indices },
                    )
                },
            },
            (Phase::Removing { binary_path: b }, Event::StaleRemoved) => (
                Phase::Idle,
                Some(b.clone()),
                Action::Finish { path: b.clone() },
            ),
            _ => unreached(),
        };
        self.phase = new_phase;
        match new_cache {
            Some(p) => {
                self.cached_binary_path = Some(p);
            },
            None => {},
        }
        action
    }
}

} // verus!
