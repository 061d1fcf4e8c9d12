//! The resolution itself: from the host's answers to the next host calls.
//!
//! A resolution goes through three tiers: the path remembered from an
//! earlier resolution, the worktree's search path, and the latest release of
//! the server. The resolver never calls the host. [`ServerResolver::begin`]
//! and [`ServerResolver::advance`] hand out a [`Step`] each: effects to
//! perform, and then either a query whose answer is due to `advance`, or the
//! end of the resolution.

use crate::error::{ResolveError, ResolveErrorView};
use crate::host::{
    ArchiveKind, DirEntry, DirEntryView, Effect, EffectView, InstallStatus, Query, QueryView,
    Response, ResponseView, effects_view, entries_view,
};
use crate::platform::{
    PlatformKey, asset_name, asset_name_spec, binary_path, binary_path_spec, install_directory,
    release_repository, server_binary_name, server_repository, tool_name, working_directory,
};
use crate::release::{Release, ReleaseView, download_url_of};
use crate::sweep::{plan_sweep, sweep_plan};
use vstd::prelude::*;
use vstd::string::*;

verus! {

/// How a step ends.
#[derive(Debug, PartialEq, Eq)]
pub enum Next {
    /// Put the query to the host and hand its answer to `advance`.
    Ask(Query),
    /// The resolution is over: the server's path, or why there is none.
    Finish(Result<String, ResolveError>),
}

/// What the host is to do now: the effects in their order, then `next`.
#[derive(Debug, PartialEq, Eq)]
pub struct Step {
    pub effects: Vec<Effect>,
    pub next: Next,
}

pub enum NextView {
    Ask(QueryView),
    Finish(Result<Seq<char>, ResolveErrorView>),
}

pub struct StepView {
    pub effects: Seq<EffectView>,
    pub next: NextView,
}

impl View for Next {
    type V = NextView;

    open spec fn view(&self) -> NextView {
        match *self {
            Next::Ask(query) => NextView::Ask(query@),
            Next::Finish(result) => NextView::Finish(
                match result {
                    Ok(path) => Ok(path@),
                    Err(error) => Err(error@),
                },
            ),
        }
    }
}

impl View for Step {
    type V = StepView;

    open spec fn view(&self) -> StepView {
        StepView { effects: effects_view(self.effects@), next: self.next@ }
    }
}

/// Where a resolution stands.
#[derive(Debug, PartialEq, Eq)]
pub enum ResolverState {
    /// Nothing is resolved and nothing is asked.
    Idle,
    /// A resolution succeeded; its path answers every later one.
    Resolved { path: String },
    AwaitingSearchPath,
    AwaitingRelease,
    AwaitingPlatform { release: Release },
    AwaitingInstalledCheck { release: Release, platform: PlatformKey, path: String },
    AwaitingDownload { version: String, path: String },
    AwaitingExecutableMark { version: String, path: String },
    AwaitingListing { version: String, path: String },
}

pub enum ResolverStateView {
    Idle,
    Resolved { path: Seq<char> },
    AwaitingSearchPath,
    AwaitingRelease,
    AwaitingPlatform { release: ReleaseView },
    AwaitingInstalledCheck { release: ReleaseView, platform: PlatformKey, path: Seq<char> },
    AwaitingDownload { version: Seq<char>, path: Seq<char> },
    AwaitingExecutableMark { version: Seq<char>, path: Seq<char> },
    AwaitingListing { version: Seq<char>, path: Seq<char> },
}

impl View for ResolverState {
    type V = ResolverStateView;

    open spec fn view(&self) -> ResolverStateView {
        match *self {
            ResolverState::Idle => ResolverStateView::Idle,
            ResolverState::Resolved { path } => ResolverStateView::Resolved { path: path@ },
            ResolverState::AwaitingSearchPath => ResolverStateView::AwaitingSearchPath,
            ResolverState::AwaitingRelease => ResolverStateView::AwaitingRelease,
            ResolverState::AwaitingPlatform { release } => ResolverStateView::AwaitingPlatform {
                release: release@,
            },
            ResolverState::AwaitingInstalledCheck {
                release,
                platform,
                path,
            } => ResolverStateView::AwaitingInstalledCheck {
                release: release@,
                platform,
                path: path@,
            },
            ResolverState::AwaitingDownload { version, path } => ResolverStateView::AwaitingDownload {
                version: version@,
                path: path@,
            },
            ResolverState::AwaitingExecutableMark {
                version,
                path,
            } => ResolverStateView::AwaitingExecutableMark { version: version@, path: path@ },
            ResolverState::AwaitingListing { version, path } => ResolverStateView::AwaitingListing {
                version: version@,
                path: path@,
            },
        }
    }
}

impl ResolverStateView {
    /// The path that an earlier resolution left, if one succeeded.
    pub open spec fn cached(self) -> Option<Seq<char>> {
        match self {
            ResolverStateView::Resolved { path } => Some(path),
            _ => None,
        }
    }
}

/// A step that asks `query` and does nothing before.
pub open spec fn ask(query: QueryView) -> StepView {
    StepView { effects: Seq::empty(), next: NextView::Ask(query) }
}

/// A step that ends the resolution with `path`.
pub open spec fn succeed(path: Seq<char>) -> StepView {
    StepView { effects: Seq::empty(), next: NextView::Finish(Ok(path)) }
}

/// A step that ends the resolution with `error`.
pub open spec fn fail(error: ResolveErrorView) -> StepView {
    StepView { effects: Seq::empty(), next: NextView::Finish(Err(error)) }
}

/// The step `step` with the host told of `status` first.
pub open spec fn announced(status: InstallStatus, step: StepView) -> StepView {
    StepView { effects: seq![EffectView::SetStatus(status)] + step.effects, next: step.next }
}

/// An answer that fits no open query ends the resolution.
pub open spec fn rejected() -> (ResolverStateView, StepView) {
    (ResolverStateView::Idle, fail(ResolveErrorView::UnexpectedResponse))
}

/// The query for the latest release: assets required, no pre-releases.
pub open spec fn release_query() -> QueryView {
    QueryView::LatestRelease {
        repository: release_repository(),
        require_assets: true,
        pre_release: false,
    }
}

/// The query that lists the working directory for the sweep.
pub open spec fn listing_query() -> QueryView {
    QueryView::ListDirectory { path: working_directory() }
}

/// The start of a resolution: a remembered path ends it at once, else the
/// search path is asked.
pub open spec fn begin_spec(state: ResolverStateView) -> (ResolverStateView, StepView) {
    match state {
        ResolverStateView::Resolved { path } => (state, succeed(path)),
        _ => (
            ResolverStateView::AwaitingSearchPath,
            ask(QueryView::SearchPath { name: tool_name() }),
        ),
    }
}

/// A hit on the search path is the result and is remembered; a miss turns
/// to the release index.
pub open spec fn after_search_path(hit: Option<Seq<char>>) -> (ResolverStateView, StepView) {
    match hit {
        Some(path) => (ResolverStateView::Resolved { path }, succeed(path)),
        None => (
            ResolverStateView::AwaitingRelease,
            announced(InstallStatus::CheckingForUpdate, ask(release_query())),
        ),
    }
}

/// A failed lookup ends the resolution with the host's message, a release
/// without assets counts as no release, and any other release leads on to
/// the platform.
pub open spec fn after_release(found: Result<ReleaseView, Seq<char>>) -> (
    ResolverStateView,
    StepView,
) {
    match found {
        Err(message) => (ResolverStateView::Idle, fail(ResolveErrorView::Host(message))),
        Ok(release) => if release.assets.len() == 0 {
            (ResolverStateView::Idle, fail(ResolveErrorView::NoRelease))
        } else {
            (ResolverStateView::AwaitingPlatform { release }, ask(QueryView::CurrentPlatform))
        },
    }
}

/// With the platform known, the binary's place is known: ask whether it is
/// there already.
pub open spec fn after_platform(release: ReleaseView, platform: PlatformKey) -> (
    ResolverStateView,
    StepView,
) {
    let path = binary_path_spec(release.version, platform.os);
    (
        ResolverStateView::AwaitingInstalledCheck { release, platform, path },
        ask(QueryView::IsFile { path }),
    )
}

/// An installed binary goes straight to the sweep. A missing one is
/// downloaded, once the host is told so: from the asset named for the
/// platform, or not at all where the architecture has no builds or the
/// release has no such asset.
pub open spec fn after_installed_check(
    release: ReleaseView,
    platform: PlatformKey,
    path: Seq<char>,
    installed: bool,
) -> (ResolverStateView, StepView) {
    if installed {
        (
            ResolverStateView::AwaitingListing { version: release.version, path },
            ask(listing_query()),
        )
    } else {
        match asset_name_spec(platform) {
            None => (
                ResolverStateView::Idle,
                announced(
                    InstallStatus::Downloading,
                    fail(ResolveErrorView::UnsupportedArchitecture(platform.arch)),
                ),
            ),
            Some(name) => match download_url_of(release.assets, name) {
                None => (
                    ResolverStateView::Idle,
                    announced(InstallStatus::Downloading, fail(ResolveErrorView::NoAsset)),
                ),
                Some(url) => (
                    ResolverStateView::AwaitingDownload { version: release.version, path },
                    announced(
                        InstallStatus::Downloading,
                        ask(
                            QueryView::Download {
                                url,
                                destination: release.version,
                                kind: ArchiveKind::Zip,
                            },
                        ),
                    ),
                ),
            },
        }
    }
}

/// A finished download is marked executable; a failed one ends the
/// resolution with the host's message.
pub open spec fn after_download(version: Seq<char>, path: Seq<char>, done: Result<(), Seq<char>>) -> (
    ResolverStateView,
    StepView,
) {
    match done {
        Err(message) => (ResolverStateView::Idle, fail(ResolveErrorView::Host(message))),
        Ok(_) => (
            ResolverStateView::AwaitingExecutableMark { version, path },
            ask(QueryView::MakeExecutable { path }),
        ),
    }
}

/// Once the binary is executable the sweep follows; a failure ends the
/// resolution with the host's message.
pub open spec fn after_executable_mark(
    version: Seq<char>,
    path: Seq<char>,
    done: Result<(), Seq<char>>,
) -> (ResolverStateView, StepView) {
    match done {
        Err(message) => (ResolverStateView::Idle, fail(ResolveErrorView::Host(message))),
        Ok(_) => (ResolverStateView::AwaitingListing { version, path }, ask(listing_query())),
    }
}

/// The removals that a listing leads to; none where the directory could
/// not be listed.
pub open spec fn sweep_of(listed: Option<Seq<DirEntryView>>, version: Seq<char>) -> Seq<
    EffectView,
> {
    match listed {
        Some(entries) => sweep_plan(entries, version),
        None => Seq::empty(),
    }
}

/// The last step: sweep the other entries away, tell the host that the
/// installation is over, remember the path and return it.
pub open spec fn after_listing(
    version: Seq<char>,
    path: Seq<char>,
    listed: Option<Seq<DirEntryView>>,
) -> (ResolverStateView, StepView) {
    (
        ResolverStateView::Resolved { path },
        StepView {
            effects: sweep_of(listed, version).push(EffectView::SetStatus(InstallStatus::Idle)),
            next: NextView::Finish(Ok(path)),
        },
    )
}

/// What an answer leads to in each state. An answer to a query that is not
/// open is rejected, and never touches a remembered path.
pub open spec fn advance_spec(state: ResolverStateView, response: ResponseView) -> (
    ResolverStateView,
    StepView,
) {
    match state {
        ResolverStateView::Idle => rejected(),
        ResolverStateView::Resolved { path } => (
            state,
            fail(ResolveErrorView::UnexpectedResponse),
        ),
        ResolverStateView::AwaitingSearchPath => match response {
            ResponseView::SearchPath(hit) => after_search_path(hit),
            _ => rejected(),
        },
        ResolverStateView::AwaitingRelease => match response {
            ResponseView::LatestRelease(found) => after_release(found),
            _ => rejected(),
        },
        ResolverStateView::AwaitingPlatform { release } => match response {
            ResponseView::Platform(platform) => after_platform(release, platform),
            _ => rejected(),
        },
        ResolverStateView::AwaitingInstalledCheck { release, platform, path } => match response {
            ResponseView::IsFile(installed) => after_installed_check(
                release,
                platform,
                path,
                installed,
            ),
            _ => rejected(),
        },
        ResolverStateView::AwaitingDownload { version, path } => match response {
            ResponseView::Downloaded(done) => after_download(version, path, done),
            _ => rejected(),
        },
        ResolverStateView::AwaitingExecutableMark { version, path } => match response {
            ResponseView::MadeExecutable(done) => after_executable_mark(version, path, done),
            _ => rejected(),
        },
        ResolverStateView::AwaitingListing { version, path } => match response {
            ResponseView::Listing(listed) => after_listing(version, path, listed),
            _ => rejected(),
        },
    }
}

impl Step {
    fn ask(query: Query) -> (step: Step)
        ensures
            step@ == ask(query@),
    {
        let step = Step { effects: Vec::new(), next: Next::Ask(query) };
        assert(step@.effects =~= Seq::empty());
        step
    }

    fn succeed(path: String) -> (step: Step)
        ensures
            step@ == succeed(path@),
    {
        let step = Step { effects: Vec::new(), next: Next::Finish(Ok(path)) };
        assert(step@.effects =~= Seq::empty());
        step
    }

    fn fail(error: ResolveError) -> (step: Step)
        ensures
            step@ == fail(error@),
    {
        let step = Step { effects: Vec::new(), next: Next::Finish(Err(error)) };
        assert(step@.effects =~= Seq::empty());
        step
    }

    fn announced(self, status: InstallStatus) -> (step: Step)
        ensures
            step@ == announced(status, self@),
    {
        let ghost before = self@;
        let Step { mut effects, next } = self;
        effects.insert(0, Effect::SetStatus(status));
        let step = Step { effects, next };
        assert(step@.effects =~= seq![EffectView::SetStatus(status)] + before.effects);
        step
    }
}

fn reject() -> (out: (ResolverState, Step))
    ensures
        (out.0@, out.1@) == rejected(),
{
    (ResolverState::Idle, Step::fail(ResolveError::UnexpectedResponse))
}

fn ask_release() -> (query: Query)
    ensures
        query@ == release_query(),
{
    Query::LatestRelease {
        repository: String::from_str(server_repository()),
        require_assets: true,
        pre_release: false,
    }
}

fn ask_listing() -> (query: Query)
    ensures
        query@ == listing_query(),
{
    Query::ListDirectory { path: String::from_str(install_directory()) }
}

fn on_search_path(hit: Option<String>) -> (out: (ResolverState, Step))
    ensures
        (out.0@, out.1@) == after_search_path(
            match hit {
                Some(path) => Some(path@),
                None => None,
            },
        ),
{
    match hit {
        Some(path) => {
            let result = path.clone();
            (ResolverState::Resolved { path }, Step::succeed(result))
        },
        None => (
            ResolverState::AwaitingRelease,
            Step::ask(ask_release()).announced(InstallStatus::CheckingForUpdate),
        ),
    }
}

fn on_release(found: Result<Release, String>) -> (out: (ResolverState, Step))
    ensures
        (out.0@, out.1@) == after_release(
            match found {
                Ok(release) => Ok(release@),
                Err(message) => Err(message@),
            },
        ),
{
    match found {
        Err(message) => (ResolverState::Idle, Step::fail(ResolveError::Host(message))),
        Ok(release) => {
            if !release.has_assets() {
                (ResolverState::Idle, Step::fail(ResolveError::NoRelease))
            } else {
                (ResolverState::AwaitingPlatform { release }, Step::ask(Query::CurrentPlatform))
            }
        },
    }
}

fn on_platform(release: Release, platform: PlatformKey) -> (out: (ResolverState, Step))
    ensures
        (out.0@, out.1@) == after_platform(release@, platform),
{
    let path = binary_path(release.version.as_str(), platform.os);
    let asked = path.clone();
    (
        ResolverState::AwaitingInstalledCheck { release, platform, path },
        Step::ask(Query::IsFile { path: asked }),
    )
}

fn on_installed_check(release: Release, platform: PlatformKey, path: String, installed: bool) -> (out:
    (ResolverState, Step))
    ensures
        (out.0@, out.1@) == after_installed_check(release@, platform, path@, installed),
{
    if installed {
        let Release { version, assets: _ } = release;
        return (ResolverState::AwaitingListing { version, path }, Step::ask(ask_listing()));
    }
    match asset_name(platform) {
        None => (
            ResolverState::Idle,
            Step::fail(ResolveError::UnsupportedArchitecture(platform.arch)).announced(
                InstallStatus::Downloading,
            ),
        ),
        Some(name) => match release.download_url(&name) {
            None => (
                ResolverState::Idle,
                Step::fail(ResolveError::NoAsset).announced(InstallStatus::Downloading),
            ),
            Some(url) => {
                let Release { version, assets: _ } = release;
                let destination = version.clone();
                (
                    ResolverState::AwaitingDownload { version, path },
                    Step::ask(
                        Query::Download { url, destination, kind: ArchiveKind::Zip },
                    ).announced(InstallStatus::Downloading),
                )
            },
        },
    }
}

fn on_download(version: String, path: String, done: Result<(), String>) -> (out: (
    ResolverState,
    Step,
))
    ensures
        (out.0@, out.1@) == after_download(
            version@,
            path@,
            match done {
                Ok(_) => Ok(()),
                Err(message) => Err(message@),
            },
        ),
{
    match done {
        Err(message) => (ResolverState::Idle, Step::fail(ResolveError::Host(message))),
        Ok(_) => {
            let asked = path.clone();
            (
                ResolverState::AwaitingExecutableMark { version, path },
                Step::ask(Query::MakeExecutable { path: asked }),
            )
        },
    }
}

fn on_executable_mark(version: String, path: String, done: Result<(), String>) -> (out: (
    ResolverState,
    Step,
))
    ensures
        (out.0@, out.1@) == after_executable_mark(
            version@,
            path@,
            match done {
                Ok(_) => Ok(()),
                Err(message) => Err(message@),
            },
        ),
{
    match done {
        Err(message) => (ResolverState::Idle, Step::fail(ResolveError::Host(message))),
        Ok(_) => (ResolverState::AwaitingListing { version, path }, Step::ask(ask_listing())),
    }
}

fn on_listing(version: String, path: String, listed: Option<Vec<DirEntry>>) -> (out: (
    ResolverState,
    Step,
))
    ensures
        (out.0@, out.1@) == after_listing(
            version@,
            path@,
            match listed {
                Some(entries) => Some(entries_view(entries@)),
                None => None,
            },
        ),
{
    let mut effects = match &listed {
        Some(entries) => plan_sweep(entries, &version),
        None => Vec::new(),
    };
    let ghost removals = effects_view(effects@);
    assert(listed is None ==> removals =~= Seq::empty());
    effects.push(Effect::SetStatus(InstallStatus::Idle));
    assert(effects_view(effects@) =~= removals.push(EffectView::SetStatus(InstallStatus::Idle)));
    let result = path.clone();
    (ResolverState::Resolved { path }, Step { effects, next: Next::Finish(Ok(result)) })
}

/// Resolves the path of the language server, one host call at a time.
#[derive(Debug)]
pub struct ServerResolver {
    state: ResolverState,
}

impl ServerResolver {
    /// The state that the resolver is in.
    pub closed spec fn view(&self) -> ResolverStateView {
        self.state@
    }

    /// A resolver that has resolved nothing yet.
    pub fn new() -> (resolver: Self)
        ensures
            resolver@ == ResolverStateView::Idle,
    {
        ServerResolver { state: ResolverState::Idle }
    }

    /// The state that the resolver is in.
    pub fn state(&self) -> (state: &ResolverState)
        ensures
            state@ == self@,
    {
        &self.state
    }

    /// The path that an earlier resolution left, if one succeeded.
    pub fn cached_path(&self) -> (path: Option<String>)
        ensures
            match path {
                Some(text) => self@.cached() == Some(text@),
                None => self@.cached() is None,
            },
    {
        match &self.state {
            ResolverState::Resolved { path } => Some(path.clone()),
            _ => None,
        }
    }

    /// Starts a resolution. Whatever was open before is given up.
    pub fn begin(&mut self) -> (step: Step)
        ensures
            (final(self)@, step@) == begin_spec(old(self)@),
    {
        match &self.state {
            ResolverState::Resolved { path } => Step::succeed(path.clone()),
            _ => {
                self.state = ResolverState::AwaitingSearchPath;
                Step::ask(Query::SearchPath { name: String::from_str(server_binary_name()) })
            },
        }
    }

    /// Takes the host's answer to the query of the last step and says how the
    /// resolution goes on.
    pub fn advance(&mut self, response: Response) -> (step: Step)
        ensures
            (final(self)@, step@) == advance_spec(old(self)@, response@),
    {
        let mut state = ResolverState::Idle;
        core::mem::swap(&mut self.state, &mut state);
        let (state, step) = match state {
            ResolverState::Idle => reject(),
            ResolverState::Resolved { path } => (
                ResolverState::Resolved { path },
                Step::fail(ResolveError::UnexpectedResponse),
            ),
            ResolverState::AwaitingSearchPath => match response {
                Response::SearchPath(hit) => on_search_path(hit),
                _ => reject(),
            },
            ResolverState::AwaitingRelease => match response {
                Response::LatestRelease(found) => on_release(found),
                _ => reject(),
            },
            ResolverState::AwaitingPlatform { release } => match response {
                Response::Platform(platform) => on_platform(release, platform),
                _ => reject(),
            },
            ResolverState::AwaitingInstalledCheck { release, platform, path } => match response {
                Response::IsFile(installed) => on_installed_check(
                    release,
                    platform,
                    path,
                    installed,
                ),
                _ => reject(),
            },
            ResolverState::AwaitingDownload { version, path } => match response {
                Response::Downloaded(done) => on_download(version, path, done),
                _ => reject(),
            },
            ResolverState::AwaitingExecutableMark { version, path } => match response {
                Response::MadeExecutable(done) => on_executable_mark(version, path, done),
                _ => reject(),
            },
            ResolverState::AwaitingListing { version, path } => match response {
                Response::Listing(listed) => on_listing(version, path, listed),
                _ => reject(),
            },
        };
        self.state = state;
        step
    }
}

} // verus!
