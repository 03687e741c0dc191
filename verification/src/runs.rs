//! What holds of every installation, whatever the caller reports.
//!
//! A run is an installation taken through a list of reports, one step for
//! each. The laws here speak of the actions that a run asks for.

use crate::checksum::{checksum_matches, sha256};
use crate::error::ErrorKind;
use crate::install::{after_installed, next, ActionView, InstallEvent, StateView};
use crate::platform::{known_arch, known_os};
use crate::resolve::resolve_position;
use vstd::prelude::*;

verus! {

/// The state that a run ends in, and the actions it asks for, one for each
/// report.
pub open spec fn run(
    home: Seq<char>,
    request: Seq<char>,
    set_default: bool,
    state: StateView,
    events: Seq<InstallEvent>,
) -> (StateView, Seq<ActionView>)
    decreases events.len(),
{
    if events.len() == 0 {
        (state, Seq::<ActionView>::empty())
    } else {
        let so_far = run(home, request, set_default, state, events.drop_last());
        let step = next(home, request, set_default, so_far.0, events.last());
        (step.0, so_far.1.push(step.1))
    }
}

/// The actions that an installation asks for, from its start.
pub open spec fn actions(
    home: Seq<char>,
    request: Seq<char>,
    set_default: bool,
    events: Seq<InstallEvent>,
) -> Seq<ActionView> {
    run(home, request, set_default, StateView::AwaitHost, events).1
}

/// The state of an installation before its report number `k`.
pub open spec fn state_before(
    home: Seq<char>,
    request: Seq<char>,
    set_default: bool,
    events: Seq<InstallEvent>,
    k: int,
) -> StateView {
    run(home, request, set_default, StateView::AwaitHost, events.take(k)).0
}

/// How far an installation has come.
pub open spec fn phase(state: StateView) -> int {
    match state {
        StateView::AwaitHost => 0,
        StateView::AwaitCatalog { .. } => 1,
        StateView::AwaitProbe(_) => 2,
        StateView::AwaitDownload(_) => 3,
        StateView::AwaitDir(_) => 4,
        StateView::AwaitExtract(_) => 5,
        StateView::AwaitBinary(_) => 6,
        StateView::AwaitActivation => 7,
        StateView::Done(_) => 8,
    }
}

/// A run is the run through its first `n` reports, followed by the run
/// through the others.
pub proof fn lemma_run_split(
    home: Seq<char>,
    request: Seq<char>,
    set_default: bool,
    state: StateView,
    events: Seq<InstallEvent>,
    n: int,
)
    requires
        0 <= n <= events.len(),
    ensures
        ({
            let head = run(home, request, set_default, state, events.take(n));
            let tail = run(home, request, set_default, head.0, events.skip(n));
            &&& run(home, request, set_default, state, events) == (tail.0, head.1 + tail.1)
            &&& head.1.len() == n
            &&& tail.1.len() == events.len() - n
        }),
    decreases events.len(),
{
    let head = run(home, request, set_default, state, events.take(n));
    lemma_run_len(home, request, set_default, state, events.take(n));
    lemma_run_len(home, request, set_default, head.0, events.skip(n));
    if n == events.len() {
        assert(events.take(n) =~= events);
    } else {
        // the last report is the last of the second part
        let shorter = events.drop_last();
        lemma_run_split(home, request, set_default, state, shorter, n);
        assert(shorter.take(n) =~= events.take(n));
        assert(shorter.skip(n) =~= events.skip(n).drop_last());
    }
}

/// A run asks for one action for each report.
pub proof fn lemma_run_len(
    home: Seq<char>,
    request: Seq<char>,
    set_default: bool,
    state: StateView,
    events: Seq<InstallEvent>,
)
    ensures
        run(home, request, set_default, state, events).1.len() == events.len(),
    decreases events.len(),
{
    if events.len() > 0 {
        lemma_run_len(home, request, set_default, state, events.drop_last());
    }
}

/// An installation never goes back, and asks for each of its four great
/// actions only on the way from one phase to the next.
pub proof fn lemma_run_advances(
    home: Seq<char>,
    request: Seq<char>,
    set_default: bool,
    state: StateView,
    events: Seq<InstallEvent>,
)
    ensures
        ({
            let end = run(home, request, set_default, state, events);
            &&& end.1.len() == events.len()
            &&& phase(state) <= phase(end.0)
            &&& forall|k: int|
                0 <= k < events.len() ==> match #[trigger] end.1[k] {
                    ActionView::FetchCatalog { .. } => phase(state) <= 0 && 1 <= phase(end.0),
                    ActionView::Download { .. } => phase(state) <= 2 && 3 <= phase(end.0),
                    ActionView::CreateDir { .. } => phase(state) <= 3 && 4 <= phase(end.0),
                    ActionView::Extract(_) => phase(state) <= 4 && 5 <= phase(end.0),
                    _ => true,
                }
        }),
    decreases events.len(),
{
    if events.len() > 0 {
        lemma_run_advances(home, request, set_default, state, events.drop_last());
    }
}

/// The action that a run asks for at report `k`, and the state it is in
/// before and after it.
pub proof fn lemma_run_at(
    home: Seq<char>,
    request: Seq<char>,
    set_default: bool,
    events: Seq<InstallEvent>,
    k: int,
)
    requires
        0 <= k < events.len(),
    ensures
        ({
            let step = next(
                home,
                request,
                set_default,
                state_before(home, request, set_default, events, k),
                events[k],
            );
            &&& actions(home, request, set_default, events)[k] == step.1
            &&& state_before(home, request, set_default, events, k + 1) == step.0
        }),
{
    let start = StateView::AwaitHost;
    lemma_run_split(home, request, set_default, start, events, k + 1);
    let upto = events.take(k + 1);
    assert(upto.drop_last() =~= events.take(k));
    lemma_run_len(home, request, set_default, start, events.take(k));
}

/// The actions of a run before and after report `k` are those of the run up
/// to it, and of the run that goes on from there.
proof fn lemma_run_around(
    home: Seq<char>,
    request: Seq<char>,
    set_default: bool,
    events: Seq<InstallEvent>,
    k: int,
    j: int,
)
    requires
        0 <= k < events.len(),
        0 <= j < events.len(),
        j != k,
    ensures
        j < k ==> actions(home, request, set_default, events)[j] == run(
            home,
            request,
            set_default,
            StateView::AwaitHost,
            events.take(k),
        ).1[j],
        j > k ==> actions(home, request, set_default, events)[j] == run(
            home,
            request,
            set_default,
            state_before(home, request, set_default, events, k + 1),
            events.skip(k + 1),
        ).1[j - k - 1],
{
    let start = StateView::AwaitHost;
    if j < k {
        lemma_run_split(home, request, set_default, start, events, k);
    } else {
        lemma_run_split(home, request, set_default, start, events, k + 1);
    }
}

/// No installation fetches the catalog, downloads, makes the directory of
/// the version or unpacks more than once.
pub proof fn lemma_each_great_action_at_most_once(
    home: Seq<char>,
    request: Seq<char>,
    set_default: bool,
    events: Seq<InstallEvent>,
    j: int,
    k: int,
)
    requires
        0 <= j < k < events.len(),
    ensures
        ({
            let acts = actions(home, request, set_default, events);
            &&& !(acts[j] is FetchCatalog && acts[k] is FetchCatalog)
            &&& !(acts[j] is Download && acts[k] is Download)
            &&& !(acts[j] is CreateDir && acts[k] is CreateDir)
            &&& !(acts[j] is Extract && acts[k] is Extract)
        }),
{
    lemma_run_around(home, request, set_default, events, k, j);
    lemma_run_at(home, request, set_default, events, k);
    // the first of the two leaves its phase behind before the second comes
    lemma_run_advances(home, request, set_default, StateView::AwaitHost, events.take(k));
}

/// The directory of the version is made only once the downloaded archive has
/// been found to have the published checksum.
pub proof fn lemma_directory_made_only_for_checked_archive(
    home: Seq<char>,
    request: Seq<char>,
    set_default: bool,
    events: Seq<InstallEvent>,
    k: int,
)
    requires
        0 <= k < events.len(),
        actions(home, request, set_default, events)[k] is CreateDir,
    ensures
        state_before(home, request, set_default, events, k) matches StateView::AwaitDownload(t)
            && events[k] matches InstallEvent::Downloaded(Some(bytes)) && checksum_matches(
            sha256(bytes@),
            t.shasum,
        ),
{
    lemma_run_at(home, request, set_default, events, k);
}

/// An archive that does not have the published checksum ends the
/// installation with `ChecksumMismatch`, and the installation never makes
/// the directory of the version, nor unpacks anything.
pub proof fn lemma_bad_checksum_ends_installation(
    home: Seq<char>,
    request: Seq<char>,
    set_default: bool,
    events: Seq<InstallEvent>,
    k: int,
)
    requires
        0 <= k < events.len(),
        state_before(home, request, set_default, events, k) matches StateView::AwaitDownload(t)
            && events[k] matches InstallEvent::Downloaded(Some(bytes)) && !checksum_matches(
            sha256(bytes@),
            t.shasum,
        ),
    ensures
        actions(home, request, set_default, events)[k] == ActionView::Finish(
            Some(ErrorKind::ChecksumMismatch),
        ),
        forall|j: int|
            0 <= j < events.len() ==> !(#[trigger] actions(home, request, set_default, events)[j]
                is CreateDir) && !(actions(home, request, set_default, events)[j] is Extract),
{
    lemma_run_at(home, request, set_default, events, k);
    lemma_quiet_around(home, request, set_default, events, k, 3);
}

/// Where the state before report `k` has not passed `limit` and the state
/// after it is the end, no action that belongs to a later phase than `limit`
/// is asked for, before report `k` or after it.
proof fn lemma_quiet_around(
    home: Seq<char>,
    request: Seq<char>,
    set_default: bool,
    events: Seq<InstallEvent>,
    k: int,
    limit: int,
)
    requires
        0 <= k < events.len(),
        phase(state_before(home, request, set_default, events, k)) <= limit,
        phase(state_before(home, request, set_default, events, k + 1)) >= 7,
    ensures
        forall|j: int|
            0 <= j < events.len() && j != k ==> match #[trigger] actions(
                home,
                request,
                set_default,
                events,
            )[j] {
                ActionView::FetchCatalog { .. } => limit >= 1,
                ActionView::Download { .. } => limit >= 3,
                ActionView::CreateDir { .. } => limit >= 4,
                ActionView::Extract(_) => limit >= 5,
                _ => true,
            },
{
    let start = StateView::AwaitHost;
    let acts = actions(home, request, set_default, events);
    let after = state_before(home, request, set_default, events, k + 1);
    lemma_run_advances(home, request, set_default, start, events.take(k));
    lemma_run_advances(home, request, set_default, after, events.skip(k + 1));
    assert forall|j: int| 0 <= j < events.len() && j != k implies match #[trigger] acts[j] {
        ActionView::FetchCatalog { .. } => limit >= 1,
        ActionView::Download { .. } => limit >= 3,
        ActionView::CreateDir { .. } => limit >= 4,
        ActionView::Extract(_) => limit >= 5,
        _ => true,
    } by {
        lemma_run_around(home, request, set_default, events, k, j);
    }
}

/// A host that is not a known platform ends the installation with
/// `PlatformUnsupported` at once: the catalog is never fetched, and nothing
/// is downloaded.
pub proof fn lemma_unknown_host_ends_installation(
    home: Seq<char>,
    request: Seq<char>,
    set_default: bool,
    events: Seq<InstallEvent>,
)
    requires
        events.len() > 0,
        events[0] matches InstallEvent::Host { arch, os } && !(known_arch(arch@) && known_os(os@)),
    ensures
        actions(home, request, set_default, events)[0] == ActionView::Finish(
            Some(ErrorKind::PlatformUnsupported),
        ),
        forall|j: int|
            0 <= j < events.len() ==> !(#[trigger] actions(home, request, set_default, events)[j]
                is FetchCatalog) && !(actions(home, request, set_default, events)[j] is Download),
{
    lemma_run_at(home, request, set_default, events, 0);
    lemma_quiet_around(home, request, set_default, events, 0, 0);
}

/// A version that the catalog lists without a build for the host's platform
/// ends the installation with `PlatformUnsupported`, and nothing is ever
/// downloaded.
pub proof fn lemma_missing_build_ends_installation(
    home: Seq<char>,
    request: Seq<char>,
    set_default: bool,
    events: Seq<InstallEvent>,
    k: int,
)
    requires
        0 <= k < events.len(),
        state_before(home, request, set_default, events, k) matches StateView::AwaitCatalog {
            platform,
        } && events[k] matches InstallEvent::Catalog(Some(index)) && resolve_position(
            index.keys(),
            request,
        ) matches Some(i) && index.versions@[i].1.platform_position(platform) is None,
    ensures
        actions(home, request, set_default, events)[k] == ActionView::Finish(
            Some(ErrorKind::PlatformUnsupported),
        ),
        forall|j: int|
            0 <= j < events.len() ==> !(#[trigger] actions(home, request, set_default, events)[j]
                is Download),
{
    lemma_run_at(home, request, set_default, events, k);
    lemma_quiet_around(home, request, set_default, events, k, 1);
}

/// Where the version is found to be installed already, the installation
/// downloads nothing, makes no directory and unpacks nothing, at any time:
/// it goes on to make the version the active one if that was asked for, and
/// else ends well.
pub proof fn lemma_installed_version_is_left_alone(
    home: Seq<char>,
    request: Seq<char>,
    set_default: bool,
    events: Seq<InstallEvent>,
    k: int,
)
    requires
        0 <= k < events.len(),
        state_before(home, request, set_default, events, k) is AwaitProbe,
        events[k] == InstallEvent::BinaryPresent(true),
    ensures
        actions(home, request, set_default, events)[k] == after_installed(
            home,
            set_default,
            state_before(home, request, set_default, events, k)->AwaitProbe_0,
        ).1,
        forall|j: int|
            0 <= j < events.len() ==> {
                let action = #[trigger] actions(home, request, set_default, events)[j];
                !(action is Download) && !(action is CreateDir) && !(action is Extract)
            },
{
    lemma_run_at(home, request, set_default, events, k);
    lemma_quiet_around(home, request, set_default, events, k, 2);
}

/// Whether one of the first `n` reports of a run found the version
/// installed when it was probed.
pub open spec fn found_installed(
    home: Seq<char>,
    request: Seq<char>,
    set_default: bool,
    events: Seq<InstallEvent>,
    n: int,
) -> bool {
    exists|k: int|
        0 <= k < n && #[trigger] state_before(home, request, set_default, events, k) is AwaitProbe
            && events[k] == InstallEvent::BinaryPresent(true)
}

/// Whether a run asks for a download at one of its first `n` reports.
pub open spec fn downloaded(
    home: Seq<char>,
    request: Seq<char>,
    set_default: bool,
    events: Seq<InstallEvent>,
    n: int,
) -> bool {
    exists|k: int| 0 <= k < n && #[trigger] actions(home, request, set_default, events)[k] is Download
}

/// Whether a run asks for the archive to be unpacked at one of its first `n`
/// reports.
pub open spec fn unpacked(
    home: Seq<char>,
    request: Seq<char>,
    set_default: bool,
    events: Seq<InstallEvent>,
    n: int,
) -> bool {
    exists|k: int| 0 <= k < n && #[trigger] actions(home, request, set_default, events)[k] is Extract
}

/// What the state of a run tells of its past: past the download, a download
/// was asked for; past the unpacking, the archive was unpacked too; and at
/// the activation or at a good end, both were, unless the version was found
/// installed.
proof fn lemma_state_tells_past(
    home: Seq<char>,
    request: Seq<char>,
    set_default: bool,
    events: Seq<InstallEvent>,
    n: int,
)
    requires
        0 <= n <= events.len(),
    ensures
        ({
            let state = state_before(home, request, set_default, events, n);
            let fetched = downloaded(home, request, set_default, events, n) && unpacked(
                home,
                request,
                set_default,
                events,
                n,
            );
            &&& 3 <= phase(state) <= 6 ==> downloaded(home, request, set_default, events, n)
            &&& 5 <= phase(state) <= 6 ==> unpacked(home, request, set_default, events, n)
            &&& phase(state) == 7 || state == StateView::Done(None) ==> fetched || found_installed(
                home,
                request,
                set_default,
                events,
                n,
            )
        }),
    decreases n,
{
    if n > 0 {
        // what held before the last report holds after it, and the last
        // report adds what it asked for
        lemma_state_tells_past(home, request, set_default, events, n - 1);
        lemma_run_at(home, request, set_default, events, n - 1);
    }
}

/// An installation that ends well has downloaded the archive and unpacked
/// it, unless it found the version installed already.
pub proof fn lemma_good_end_follows_download_and_unpacking(
    home: Seq<char>,
    request: Seq<char>,
    set_default: bool,
    events: Seq<InstallEvent>,
)
    requires
        run(home, request, set_default, StateView::AwaitHost, events).0 == StateView::Done(None),
        !found_installed(home, request, set_default, events, events.len() as int),
    ensures
        downloaded(home, request, set_default, events, events.len() as int),
        unpacked(home, request, set_default, events, events.len() as int),
{
    assert(events.take(events.len() as int) =~= events);
    lemma_state_tells_past(home, request, set_default, events, events.len() as int);
}

/// An installation that was not asked to make the version the active one
/// never asks for the changes that do so, whatever state it starts from.
pub proof fn lemma_no_activation_unless_asked(
    home: Seq<char>,
    request: Seq<char>,
    state: StateView,
    events: Seq<InstallEvent>,
)
    ensures
        forall|k: int|
            0 <= k < events.len() ==> !(#[trigger] run(home, request, false, state, events).1[k]
                is Activate),
    decreases events.len(),
{
    lemma_run_len(home, request, false, state, events);
    if events.len() > 0 {
        lemma_no_activation_unless_asked(home, request, state, events.drop_last());
        lemma_run_len(home, request, false, state, events.drop_last());
    }
}

/// An installation that was not asked to make the version the active one
/// never comes to wait for the binary to be probed for activation, nor for
/// the activation itself.
pub proof fn lemma_no_wait_for_activation_unless_asked(
    home: Seq<char>,
    request: Seq<char>,
    events: Seq<InstallEvent>,
    n: int,
)
    requires
        0 <= n <= events.len(),
    ensures
        !(state_before(home, request, false, events, n) is AwaitBinary),
        !(state_before(home, request, false, events, n) is AwaitActivation),
    decreases n,
{
    if n > 0 {
        lemma_no_wait_for_activation_unless_asked(home, request, events, n - 1);
        lemma_run_at(home, request, false, events, n - 1);
    } else {
        assert(events.take(0) =~= Seq::<InstallEvent>::empty());
    }
}

} // verus!
