//! What holds of every resolution, whatever the host answers.
//!
//! A host is taken as a function from queries to answers, and a resolution
//! as the run that follows when each query of the resolver is answered by
//! that function. The laws below speak of such runs.

use crate::error::ResolveErrorView;
use crate::host::{
    ArchiveKind, DirEntryView, EffectView, InstallStatus, QueryView, ResponseView,
};
use crate::platform::{PlatformKey, asset_name_spec, binary_path_spec, tool_name};
use crate::release::{ReleaseView, download_url_of, lemma_download_url_of};
use crate::resolver::{
    NextView, ResolverStateView, StepView, advance_spec, begin_spec, listing_query,
    release_query, sweep_of,
};
use crate::sweep::{lemma_sweep_removes_others, lemma_sweep_spares_version, removal_of, removes};
use vstd::prelude::*;

verus! {

/// One call that the host is asked to make.
pub enum HostCall {
    Effect(EffectView),
    Query(QueryView),
}

/// A resolution as the host sees it.
pub struct Run {
    /// The calls in the order in which they were asked for.
    pub calls: Seq<HostCall>,
    /// How the resolution ended, if it did.
    pub outcome: Option<Result<Seq<char>, ResolveErrorView>>,
    /// The state that the resolver is left in.
    pub state: ResolverStateView,
}

/// The effects as host calls.
pub open spec fn effect_calls(effects: Seq<EffectView>) -> Seq<HostCall> {
    Seq::new(effects.len(), |i: int| HostCall::Effect(effects[i]))
}

/// The calls that one step asks for.
pub open spec fn calls_of(step: StepView) -> Seq<HostCall> {
    match step.next {
        NextView::Ask(query) => effect_calls(step.effects).push(HostCall::Query(query)),
        NextView::Finish(_) => effect_calls(step.effects),
    }
}

/// The run from `step` on, with at most `fuel` queries answered.
pub open spec fn drive(
    host: spec_fn(QueryView) -> ResponseView,
    state: ResolverStateView,
    step: StepView,
    fuel: nat,
) -> Run
    decreases fuel,
{
    match step.next {
        NextView::Finish(outcome) => Run { calls: calls_of(step), outcome: Some(outcome), state },
        NextView::Ask(query) => if fuel == 0 {
            Run { calls: calls_of(step), outcome: None, state }
        } else {
            let (state, next) = advance_spec(state, host(query));
            let rest = drive(host, state, next, (fuel - 1) as nat);
            Run { calls: calls_of(step) + rest.calls, outcome: rest.outcome, state: rest.state }
        },
    }
}

/// The number of queries that a resolution can take.
pub open spec fn most_queries() -> nat {
    7
}

/// A whole resolution from `state`, against `host`.
pub open spec fn resolve(
    host: spec_fn(QueryView) -> ResponseView,
    state: ResolverStateView,
) -> Run {
    let (state, step) = begin_spec(state);
    drive(host, state, step, most_queries())
}

/// Whether `response` is an answer to `query`.
pub open spec fn answers(query: QueryView, response: ResponseView) -> bool {
    match query {
        QueryView::SearchPath { .. } => response is SearchPath,
        QueryView::LatestRelease { .. } => response is LatestRelease,
        QueryView::CurrentPlatform => response is Platform,
        QueryView::IsFile { .. } => response is IsFile,
        QueryView::Download { .. } => response is Downloaded,
        QueryView::MakeExecutable { .. } => response is MadeExecutable,
        QueryView::ListDirectory { .. } => response is Listing,
    }
}

/// Whether the run holds a query that takes the network.
pub open spec fn uses_network(run: Run) -> bool {
    exists|i: int|
        0 <= i < run.calls.len() && (#[trigger] run.calls[i] matches HostCall::Query(query)
            && query.uses_network())
}

/// Whether the run holds a download.
pub open spec fn downloads(run: Run) -> bool {
    exists|i: int|
        0 <= i < run.calls.len() && (#[trigger] run.calls[i] matches HostCall::Query(query)
            && query is Download)
}

/// The query that starts every resolution without a remembered path.
pub open spec fn search_query() -> QueryView {
    QueryView::SearchPath { name: tool_name() }
}

/// A remembered path answers the resolution at once: the host is asked for
/// nothing, neither the search path nor the network, and the path stays
/// remembered.
pub proof fn law_cached_path_short_circuits(
    host: spec_fn(QueryView) -> ResponseView,
    state: ResolverStateView,
    path: Seq<char>,
)
    requires
        state.cached() == Some(path),
    ensures
        resolve(host, state) == (Run { calls: Seq::empty(), outcome: Some(Ok(path)), state }),
{
    assert(resolve(host, state).calls =~= Seq::empty());
}

/// A remembered path is never replaced or dropped: neither a new
/// resolution nor any answer changes the state that holds it.
pub proof fn law_cached_path_is_kept(
    state: ResolverStateView,
    response: ResponseView,
    path: Seq<char>,
)
    requires
        state.cached() == Some(path),
    ensures
        begin_spec(state).0 == state,
        advance_spec(state, response).0 == state,
{
}

/// A hit on the search path is the result and is remembered, and the search
/// path is all that the host was asked: no status, no network.
pub proof fn law_search_path_hit(
    host: spec_fn(QueryView) -> ResponseView,
    state: ResolverStateView,
    path: Seq<char>,
)
    requires
        state.cached() is None,
        host(search_query()) == ResponseView::SearchPath(Some(path)),
    ensures
        resolve(host, state) == (Run {
            calls: seq![HostCall::Query(search_query())],
            outcome: Some(Ok(path)),
            state: ResolverStateView::Resolved { path },
        }),
        !uses_network(resolve(host, state)),
{
    reveal_with_fuel(drive, 2);
    assert(resolve(host, state).calls =~= seq![HostCall::Query(search_query())]);
}

/// The calls of every resolution that turns to the release index: the
/// search path, the status, and the query for the latest release.
pub open spec fn opening_calls() -> Seq<HostCall> {
    seq![
        HostCall::Query(search_query()),
        HostCall::Effect(EffectView::SetStatus(InstallStatus::CheckingForUpdate)),
        HostCall::Query(release_query()),
    ]
}

/// The calls up to the question whether `release` is installed already.
pub open spec fn lookup_calls(release: ReleaseView, platform: PlatformKey) -> Seq<HostCall> {
    opening_calls() + seq![
        HostCall::Query(QueryView::CurrentPlatform),
        HostCall::Query(installed_query(release, platform)),
    ]
}

/// The calls that end a successful installation of `version`: the listing,
/// the removals that it leads to, and the status.
pub open spec fn closing_calls(version: Seq<char>, listed: Option<Seq<DirEntryView>>) -> Seq<
    HostCall,
> {
    seq![HostCall::Query(listing_query())] + effect_calls(sweep_of(listed, version)) + seq![
        HostCall::Effect(EffectView::SetStatus(InstallStatus::Idle)),
    ]
}

/// The query whether the binary of `release` is there.
pub open spec fn installed_query(release: ReleaseView, platform: PlatformKey) -> QueryView {
    QueryView::IsFile { path: binary_path_spec(release.version, platform.os) }
}

/// Nothing is remembered, the search path has no server, and the release
/// index answers with `found`.
pub open spec fn turns_to_releases(
    host: spec_fn(QueryView) -> ResponseView,
    state: ResolverStateView,
    found: Result<ReleaseView, Seq<char>>,
) -> bool {
    &&& state.cached() is None
    &&& host(search_query()) == ResponseView::SearchPath(None)
    &&& host(release_query()) == ResponseView::LatestRelease(found)
}

/// The resolution gets as far as asking whether the binary of `release` is
/// installed on `platform`, and the host answers `installed`.
pub open spec fn finds_release(
    host: spec_fn(QueryView) -> ResponseView,
    state: ResolverStateView,
    release: ReleaseView,
    platform: PlatformKey,
    installed: bool,
) -> bool {
    &&& turns_to_releases(host, state, Ok(release))
    &&& release.assets.len() > 0
    &&& host(QueryView::CurrentPlatform) == ResponseView::Platform(platform)
    &&& host(installed_query(release, platform)) == ResponseView::IsFile(installed)
}

/// A failed release lookup ends the resolution with the host's own message.
pub proof fn law_release_lookup_failure_is_passed_on(
    host: spec_fn(QueryView) -> ResponseView,
    state: ResolverStateView,
    message: Seq<char>,
)
    requires
        turns_to_releases(host, state, Err(message)),
    ensures
        resolve(host, state) == (Run {
            calls: opening_calls(),
            outcome: Some(Err(ResolveErrorView::Host(message))),
            state: ResolverStateView::Idle,
        }),
{
    reveal_with_fuel(drive, 3);
    assert(resolve(host, state).calls =~= opening_calls());
}

/// A release without assets is no release: the resolution fails, nothing
/// is remembered, and nothing is downloaded.
pub proof fn law_release_without_assets_is_no_release(
    host: spec_fn(QueryView) -> ResponseView,
    state: ResolverStateView,
    release: ReleaseView,
)
    requires
        turns_to_releases(host, state, Ok(release)),
        release.assets.len() == 0,
    ensures
        resolve(host, state) == (Run {
            calls: opening_calls(),
            outcome: Some(Err(ResolveErrorView::NoRelease)),
            state: ResolverStateView::Idle,
        }),
        !downloads(resolve(host, state)),
{
    reveal_with_fuel(drive, 3);
    assert(resolve(host, state).calls =~= opening_calls());
}

/// Where the binary is missing and the architecture has no builds, the
/// resolution fails as unsupported once the download is announced, and no
/// download is asked for.
pub proof fn law_unsupported_architecture_downloads_nothing(
    host: spec_fn(QueryView) -> ResponseView,
    state: ResolverStateView,
    release: ReleaseView,
    platform: PlatformKey,
)
    requires
        finds_release(host, state, release, platform, false),
        !platform.arch.supported(),
    ensures
        resolve(host, state) == (Run {
            calls: lookup_calls(release, platform).push(
                HostCall::Effect(EffectView::SetStatus(InstallStatus::Downloading)),
            ),
            outcome: Some(Err(ResolveErrorView::UnsupportedArchitecture(platform.arch))),
            state: ResolverStateView::Idle,
        }),
        !downloads(resolve(host, state)),
{
    reveal_with_fuel(drive, 5);
    assert(resolve(host, state).calls =~= lookup_calls(release, platform).push(
        HostCall::Effect(EffectView::SetStatus(InstallStatus::Downloading)),
    ));
}

/// Where the binary is missing and no asset of the release bears the name
/// for the platform, the resolution fails for want of an asset, and no
/// download is asked for.
pub proof fn law_missing_asset_downloads_nothing(
    host: spec_fn(QueryView) -> ResponseView,
    state: ResolverStateView,
    release: ReleaseView,
    platform: PlatformKey,
    name: Seq<char>,
)
    requires
        finds_release(host, state, release, platform, false),
        asset_name_spec(platform) == Some(name),
        forall|i: int| 0 <= i < release.assets.len() ==> (#[trigger] release.assets[i]).name != name,
    ensures
        resolve(host, state) == (Run {
            calls: lookup_calls(release, platform).push(
                HostCall::Effect(EffectView::SetStatus(InstallStatus::Downloading)),
            ),
            outcome: Some(Err(ResolveErrorView::NoAsset)),
            state: ResolverStateView::Idle,
        }),
        !downloads(resolve(host, state)),
{
    lemma_download_url_of(release.assets, name);
    reveal_with_fuel(drive, 5);
    assert(resolve(host, state).calls =~= lookup_calls(release, platform).push(
        HostCall::Effect(EffectView::SetStatus(InstallStatus::Downloading)),
    ));
}

/// The download that the resolver asks for where `url` is the address of
/// the asset of `release`.
pub open spec fn download_query(release: ReleaseView, url: Seq<char>) -> QueryView {
    QueryView::Download { url, destination: release.version, kind: ArchiveKind::Zip }
}

/// The query that marks the binary of `release` as executable.
pub open spec fn executable_query(release: ReleaseView, platform: PlatformKey) -> QueryView {
    QueryView::MakeExecutable { path: binary_path_spec(release.version, platform.os) }
}

/// The calls from the announcement of a download to the request for it.
pub open spec fn download_calls(release: ReleaseView, url: Seq<char>) -> Seq<HostCall> {
    seq![
        HostCall::Effect(EffectView::SetStatus(InstallStatus::Downloading)),
        HostCall::Query(download_query(release, url)),
    ]
}

/// The binary of `release` is missing, and the asset for `platform` is to
/// be had at `url`.
pub open spec fn finds_asset(
    host: spec_fn(QueryView) -> ResponseView,
    state: ResolverStateView,
    release: ReleaseView,
    platform: PlatformKey,
    url: Seq<char>,
) -> bool {
    &&& finds_release(host, state, release, platform, false)
    &&& asset_name_spec(platform) matches Some(name) && download_url_of(release.assets, name)
        == Some(url)
}

/// The binary of `release` is there at the end: it was installed before, or
/// it is downloaded from `url` and marked executable without a failure.
pub open spec fn installs(
    host: spec_fn(QueryView) -> ResponseView,
    state: ResolverStateView,
    release: ReleaseView,
    platform: PlatformKey,
) -> bool {
    ||| finds_release(host, state, release, platform, true)
    ||| exists|url: Seq<char>|
        {
            &&& #[trigger] finds_asset(host, state, release, platform, url)
            &&& host(download_query(release, url)) == ResponseView::Downloaded(Ok(()))
            &&& host(executable_query(release, platform)) == ResponseView::MadeExecutable(Ok(()))
        }
}

/// A binary that is installed already is not downloaded again: the
/// resolution goes on to the sweep, returns the binary's path and
/// remembers it.
pub proof fn law_installed_version_skips_download(
    host: spec_fn(QueryView) -> ResponseView,
    state: ResolverStateView,
    release: ReleaseView,
    platform: PlatformKey,
    listed: Option<Seq<DirEntryView>>,
)
    requires
        finds_release(host, state, release, platform, true),
        host(listing_query()) == ResponseView::Listing(listed),
    ensures
        resolve(host, state) == (Run {
            calls: lookup_calls(release, platform) + closing_calls(release.version, listed),
            outcome: Some(Ok(binary_path_spec(release.version, platform.os))),
            state: ResolverStateView::Resolved {
                path: binary_path_spec(release.version, platform.os),
            },
        }),
        !downloads(resolve(host, state)),
{
    reveal_with_fuel(drive, 6);
    assert(resolve(host, state).calls =~= lookup_calls(release, platform) + closing_calls(
        release.version,
        listed,
    ));
}

/// A missing binary is downloaded from the asset for the platform, unpacked
/// under the version's name and marked executable; the sweep follows, and
/// the binary's path is returned and remembered.
pub proof fn law_missing_version_is_installed(
    host: spec_fn(QueryView) -> ResponseView,
    state: ResolverStateView,
    release: ReleaseView,
    platform: PlatformKey,
    url: Seq<char>,
    listed: Option<Seq<DirEntryView>>,
)
    requires
        finds_asset(host, state, release, platform, url),
        host(download_query(release, url)) == ResponseView::Downloaded(Ok(())),
        host(executable_query(release, platform)) == ResponseView::MadeExecutable(Ok(())),
        host(listing_query()) == ResponseView::Listing(listed),
    ensures
        resolve(host, state) == (Run {
            calls: lookup_calls(release, platform) + download_calls(release, url).push(
                HostCall::Query(executable_query(release, platform)),
            ) + closing_calls(release.version, listed),
            outcome: Some(Ok(binary_path_spec(release.version, platform.os))),
            state: ResolverStateView::Resolved {
                path: binary_path_spec(release.version, platform.os),
            },
        }),
{
    reveal_with_fuel(drive, 8);
    assert(resolve(host, state).calls =~= lookup_calls(release, platform) + download_calls(
        release,
        url,
    ).push(HostCall::Query(executable_query(release, platform))) + closing_calls(
        release.version,
        listed,
    ));
}

/// A failed download ends the resolution with the host's own message, and
/// nothing is remembered.
pub proof fn law_download_failure_is_passed_on(
    host: spec_fn(QueryView) -> ResponseView,
    state: ResolverStateView,
    release: ReleaseView,
    platform: PlatformKey,
    url: Seq<char>,
    message: Seq<char>,
)
    requires
        finds_asset(host, state, release, platform, url),
        host(download_query(release, url)) == ResponseView::Downloaded(Err(message)),
    ensures
        resolve(host, state) == (Run {
            calls: lookup_calls(release, platform) + download_calls(release, url),
            outcome: Some(Err(ResolveErrorView::Host(message))),
            state: ResolverStateView::Idle,
        }),
{
    reveal_with_fuel(drive, 6);
    assert(resolve(host, state).calls =~= lookup_calls(release, platform) + download_calls(
        release,
        url,
    ));
}

/// A binary that cannot be marked executable ends the resolution with the
/// host's own message, and nothing is remembered.
pub proof fn law_executable_mark_failure_is_passed_on(
    host: spec_fn(QueryView) -> ResponseView,
    state: ResolverStateView,
    release: ReleaseView,
    platform: PlatformKey,
    url: Seq<char>,
    message: Seq<char>,
)
    requires
        finds_asset(host, state, release, platform, url),
        host(download_query(release, url)) == ResponseView::Downloaded(Ok(())),
        host(executable_query(release, platform)) == ResponseView::MadeExecutable(Err(message)),
    ensures
        resolve(host, state) == (Run {
            calls: lookup_calls(release, platform) + download_calls(release, url).push(
                HostCall::Query(executable_query(release, platform)),
            ),
            outcome: Some(Err(ResolveErrorView::Host(message))),
            state: ResolverStateView::Idle,
        }),
{
    reveal_with_fuel(drive, 7);
    assert(resolve(host, state).calls =~= lookup_calls(release, platform) + download_calls(
        release,
        url,
    ).push(HostCall::Query(executable_query(release, platform))));
}

/// Whether the run asks for `effect`.
pub open spec fn performs(run: Run, effect: EffectView) -> bool {
    run.calls.contains(HostCall::Effect(effect))
}

/// Once a version is installed, the sweep leaves it alone and removes
/// every other entry of the working directory whose type is known: a
/// directory with all that it holds, anything else as a single file.
pub proof fn law_sweep_prunes_other_versions(
    host: spec_fn(QueryView) -> ResponseView,
    state: ResolverStateView,
    release: ReleaseView,
    platform: PlatformKey,
    entries: Seq<DirEntryView>,
)
    requires
        installs(host, state, release, platform),
        host(listing_query()) == ResponseView::Listing(Some(entries)),
    ensures
        resolve(host, state).outcome == Some(
            Ok::<Seq<char>, ResolveErrorView>(binary_path_spec(release.version, platform.os)),
        ),
        forall|i: int|
            0 <= i < entries.len() && removal_of(#[trigger] entries[i], release.version) is Some
                ==> performs(
                resolve(host, state),
                removal_of(entries[i], release.version)->0,
            ),
        forall|effect: EffectView|
            removes(effect, release.version) ==> !#[trigger] performs(resolve(host, state), effect),
{
    let run = resolve(host, state);
    let version = release.version;
    let plan = sweep_of(Some(entries), version);
    let closing = closing_calls(version, Some(entries));
    let before: Seq<HostCall> = if finds_release(host, state, release, platform, true) {
        law_installed_version_skips_download(host, state, release, platform, Some(entries));
        lookup_calls(release, platform)
    } else {
        let url = choose|url: Seq<char>|
            {
                &&& #[trigger] finds_asset(host, state, release, platform, url)
                &&& host(download_query(release, url)) == ResponseView::Downloaded(Ok(()))
                &&& host(executable_query(release, platform)) == ResponseView::MadeExecutable(
                    Ok(()),
                )
            };
        law_missing_version_is_installed(host, state, release, platform, url, Some(entries));
        lookup_calls(release, platform) + download_calls(release, url).push(
            HostCall::Query(executable_query(release, platform)),
        )
    };
    assert(run.calls == before + closing);
    assert(forall|k: int|
        0 <= k < before.len() ==> !(#[trigger] before[k] matches HostCall::Effect(effect)
            && !(effect is SetStatus)));
    lemma_sweep_removes_others(entries, version);
    lemma_sweep_spares_version(entries, version);
    assert forall|i: int|
        0 <= i < entries.len() && removal_of(
            #[trigger] entries[i],
            version,
        ) is Some implies performs(run, removal_of(entries[i], version)->0) by {
        let removal = removal_of(entries[i], version)->0;
        let k = choose|k: int| 0 <= k < plan.len() && plan[k] == removal;
        assert(closing[k + 1] == HostCall::Effect(removal));
        assert(run.calls[before.len() + k + 1] == HostCall::Effect(removal));
    }
    assert forall|effect: EffectView| removes(effect, version) implies !#[trigger] performs(
        run,
        effect,
    ) by {
        if performs(run, effect) {
            let j = choose|j: int|
                0 <= j < run.calls.len() && run.calls[j] == HostCall::Effect(effect);
            if j >= before.len() {
                let k = j - before.len();
                assert(closing[k] == HostCall::Effect(effect));
                assert(1 <= k <= plan.len());
                assert(plan[k - 1] == effect);
            }
        }
    }
}

/// What links a state to the step that was handed out with it: a query is
/// open exactly where its answer is awaited, a path is returned only where
/// it is remembered, and a failure leaves nothing in flight.
pub open spec fn in_step(state: ResolverStateView, step: StepView) -> bool {
    match step.next {
        NextView::Ask(query) => match state {
            ResolverStateView::Idle => false,
            ResolverStateView::Resolved { .. } => false,
            ResolverStateView::AwaitingSearchPath => query is SearchPath,
            ResolverStateView::AwaitingRelease => query is LatestRelease,
            ResolverStateView::AwaitingPlatform { .. } => query is CurrentPlatform,
            ResolverStateView::AwaitingInstalledCheck { .. } => query is IsFile,
            ResolverStateView::AwaitingDownload { .. } => query is Download,
            ResolverStateView::AwaitingExecutableMark { .. } => query is MakeExecutable,
            ResolverStateView::AwaitingListing { .. } => query is ListDirectory,
        },
        NextView::Finish(Ok(path)) => state == (ResolverStateView::Resolved { path }),
        NextView::Finish(Err(_)) => state is Idle,
    }
}

/// How far a state is from the end of its resolution, in queries.
pub open spec fn queries_left(state: ResolverStateView) -> nat {
    match state {
        ResolverStateView::Idle => 0,
        ResolverStateView::Resolved { .. } => 0,
        ResolverStateView::AwaitingSearchPath => 7,
        ResolverStateView::AwaitingRelease => 6,
        ResolverStateView::AwaitingPlatform { .. } => 5,
        ResolverStateView::AwaitingInstalledCheck { .. } => 4,
        ResolverStateView::AwaitingDownload { .. } => 3,
        ResolverStateView::AwaitingExecutableMark { .. } => 2,
        ResolverStateView::AwaitingListing { .. } => 1,
    }
}

/// A run with enough fuel ends; a path that it returns is remembered, and
/// a failure leaves the resolver idle with nothing remembered. A host that
/// answers what it is asked is never told that its answer was unexpected.
pub proof fn lemma_drive_ends(
    host: spec_fn(QueryView) -> ResponseView,
    state: ResolverStateView,
    step: StepView,
    fuel: nat,
)
    requires
        in_step(state, step),
        queries_left(state) <= fuel,
        step.next != NextView::Finish(
            Err::<Seq<char>, ResolveErrorView>(ResolveErrorView::UnexpectedResponse),
        ) || exists|query: QueryView| !answers(query, #[trigger] host(query)),
    ensures
        match drive(host, state, step, fuel).outcome {
            Some(Ok(path)) => drive(host, state, step, fuel).state == (ResolverStateView::Resolved {
                path,
            }),
            Some(Err(error)) => {
                &&& drive(host, state, step, fuel).state is Idle
                &&& (forall|query: QueryView| answers(query, #[trigger] host(query))) ==> error
                    != ResolveErrorView::UnexpectedResponse
            },
            None => false,
        },
    decreases fuel,
{
    match step.next {
        NextView::Finish(_) => {},
        NextView::Ask(query) => {
            let (after, next) = advance_spec(state, host(query));
            assert(in_step(after, next));
            assert(queries_left(after) < queries_left(state));
            if forall|query: QueryView| answers(query, #[trigger] host(query)) {
                assert(answers(query, host(query)));
                assert(next.next != NextView::Finish(
                    Err::<Seq<char>, ResolveErrorView>(ResolveErrorView::UnexpectedResponse),
                ));
            }
            lemma_drive_ends(host, after, next, (fuel - 1) as nat);
        },
    }
}

/// Every resolution ends, whatever the host answers. Where it returns a
/// path, that path is remembered; where it fails, nothing is remembered and
/// nothing is left in flight, so that the next resolution starts afresh.
pub proof fn law_resolution_ends(host: spec_fn(QueryView) -> ResponseView, state: ResolverStateView)
    ensures
        match resolve(host, state).outcome {
            Some(Ok(path)) => resolve(host, state).state == (ResolverStateView::Resolved { path }),
            Some(Err(_)) => resolve(host, state).state is Idle,
            None => false,
        },
{
    let (after, step) = begin_spec(state);
    lemma_drive_ends(host, after, step, most_queries());
}

/// A host that answers each query in kind never has an answer rejected.
pub proof fn law_fitting_answers_are_accepted(
    host: spec_fn(QueryView) -> ResponseView,
    state: ResolverStateView,
)
    requires
        forall|query: QueryView| answers(query, #[trigger] host(query)),
    ensures
        resolve(host, state).outcome != Some(
            Err::<Seq<char>, ResolveErrorView>(ResolveErrorView::UnexpectedResponse),
        ),
{
    let (after, step) = begin_spec(state);
    lemma_drive_ends(host, after, step, most_queries());
}

} // verus!
