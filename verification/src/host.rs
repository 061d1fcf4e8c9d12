//! What the resolver asks of its host, and what the host answers.

use crate::platform::PlatformKey;
use crate::release::{Release, ReleaseView};
use vstd::prelude::*;

verus! {

/// The progress of an installation, as the host shows it to the user.
#[derive(Clone, Copy, Debug, PartialEq, Eq, Structural)]
pub enum InstallStatus {
    Idle,
    CheckingForUpdate,
    Downloading,
}

/// How a downloaded file is packed.
#[derive(Clone, Copy, Debug, PartialEq, Eq, Structural)]
pub enum ArchiveKind {
    Zip,
}

/// What an entry of the working directory is.
#[derive(Clone, Copy, Debug, PartialEq, Eq, Structural)]
pub enum EntryKind {
    Directory,
    /// Anything that is not a directory.
    File,
    /// The entry's type could not be read.
    Unknown,
}

/// One top-level entry of the working directory.
#[derive(Clone, Debug, PartialEq, Eq)]
pub struct DirEntry {
    pub name: String,
    pub kind: EntryKind,
}

pub struct DirEntryView {
    pub name: Seq<char>,
    pub kind: EntryKind,
}

impl View for DirEntry {
    type V = DirEntryView;

    open spec fn view(&self) -> DirEntryView {
        DirEntryView { name: self.name@, kind: self.kind }
    }
}

/// The entries of a listing, each by its view, in the listing's order.
pub open spec fn entries_view(entries: Seq<DirEntry>) -> Seq<DirEntryView> {
    Seq::new(entries.len(), |i: int| entries[i]@)
}

/// A host call whose outcome the resolver does not wait for: a failure of
/// it changes nothing.
#[derive(Clone, Debug, PartialEq, Eq)]
pub enum Effect {
    SetStatus(InstallStatus),
    /// Remove the directory at this path with all that it holds.
    RemoveTree(String),
    /// Remove the single file at this path.
    RemoveFile(String),
}

pub enum EffectView {
    SetStatus(InstallStatus),
    RemoveTree(Seq<char>),
    RemoveFile(Seq<char>),
}

impl View for Effect {
    type V = EffectView;

    open spec fn view(&self) -> EffectView {
        match *self {
            Effect::SetStatus(status) => EffectView::SetStatus(status),
            Effect::RemoveTree(path) => EffectView::RemoveTree(path@),
            Effect::RemoveFile(path) => EffectView::RemoveFile(path@),
        }
    }
}

/// The effects of a list, each by its view, in the list's order.
pub open spec fn effects_view(effects: Seq<Effect>) -> Seq<EffectView> {
    Seq::new(effects.len(), |i: int| effects[i]@)
}

/// A host call whose answer decides how the resolution goes on.
#[derive(Clone, Debug, PartialEq, Eq)]
pub enum Query {
    /// Look the named executable up on the worktree's search path.
    SearchPath { name: String },
    /// Ask the release index for the latest release of a repository.
    LatestRelease { repository: String, require_assets: bool, pre_release: bool },
    /// Ask which operating system and architecture the host runs on.
    CurrentPlatform,
    /// Ask whether a regular file exists at the path.
    IsFile { path: String },
    /// Download an archive and unpack it at the destination.
    Download { url: String, destination: String, kind: ArchiveKind },
    /// Mark the file at the path as executable.
    MakeExecutable { path: String },
    /// List the top-level entries of a directory.
    ListDirectory { path: String },
}

pub enum QueryView {
    SearchPath { name: Seq<char> },
    LatestRelease { repository: Seq<char>, require_assets: bool, pre_release: bool },
    CurrentPlatform,
    IsFile { path: Seq<char> },
    Download { url: Seq<char>, destination: Seq<char>, kind: ArchiveKind },
    MakeExecutable { path: Seq<char> },
    ListDirectory { path: Seq<char> },
}

impl View for Query {
    type V = QueryView;

    open spec fn view(&self) -> QueryView {
        match *self {
            Query::SearchPath { name } => QueryView::SearchPath { name: name@ },
            Query::LatestRelease {
                repository,
                require_assets,
                pre_release,
            } => QueryView::LatestRelease { repository: repository@, require_assets, pre_release },
            Query::CurrentPlatform => QueryView::CurrentPlatform,
            Query::IsFile { path } => QueryView::IsFile { path: path@ },
            Query::Download { url, destination, kind } => QueryView::Download {
                url: url@,
                destination: destination@,
                kind,
            },
            Query::MakeExecutable { path } => QueryView::MakeExecutable { path: path@ },
            Query::ListDirectory { path } => QueryView::ListDirectory { path: path@ },
        }
    }
}

impl QueryView {
    /// Whether answering the query takes the network.
    pub open spec fn uses_network(self) -> bool {
        self is LatestRelease || self is Download
    }
}

/// The host's answer to a query. A failure carries the host's own message.
#[derive(Debug, PartialEq, Eq)]
pub enum Response {
    /// The path found on the search path, if any.
    SearchPath(Option<String>),
    LatestRelease(Result<Release, String>),
    Platform(PlatformKey),
    IsFile(bool),
    Downloaded(Result<(), String>),
    MadeExecutable(Result<(), String>),
    /// The entries that could be read; nothing where the directory could not
    /// be listed.
    Listing(Option<Vec<DirEntry>>),
}

pub enum ResponseView {
    SearchPath(Option<Seq<char>>),
    LatestRelease(Result<ReleaseView, Seq<char>>),
    Platform(PlatformKey),
    IsFile(bool),
    Downloaded(Result<(), Seq<char>>),
    MadeExecutable(Result<(), Seq<char>>),
    Listing(Option<Seq<DirEntryView>>),
}

impl View for Response {
    type V = ResponseView;

    open spec fn view(&self) -> ResponseView {
        match *self {
            Response::SearchPath(hit) => ResponseView::SearchPath(
                match hit {
                    Some(path) => Some(path@),
                    None => None,
                },
            ),
            Response::LatestRelease(found) => ResponseView::LatestRelease(
                match found {
                    Ok(release) => Ok(release@),
                    Err(message) => Err(message@),
                },
            ),
            Response::Platform(key) => ResponseView::Platform(key),
            Response::IsFile(yes) => ResponseView::IsFile(yes),
            Response::Downloaded(done) => ResponseView::Downloaded(
                match done {
                    Ok(_) => Ok(()),
                    Err(message) => Err(message@),
                },
            ),
            Response::MadeExecutable(done) => ResponseView::MadeExecutable(
                match done {
                    Ok(_) => Ok(()),
                    Err(message) => Err(message@),
                },
            ),
            Response::Listing(listed) => ResponseView::Listing(
                match listed {
                    Some(entries) => Some(entries_view(entries@)),
                    None => None,
                },
            ),
        }
    }
}

} // verus!
