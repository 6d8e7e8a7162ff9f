use vstd::prelude::*;

use crate::channel::{is_newer_spec, ReleaseChannel};
use crate::status::AutoUpdateStatus;
use crate::updater::{CycleEvent, CyclePhase, UpdaterModel};
use crate::version::{parse_release_version_spec, version_lt, SemanticVersion};

verus! {

/// Off the nightly track a release is newer exactly when its version reads and its numbers
/// strictly follow the running ones; the running version itself is never newer.
pub proof fn newer_is_strictly_greater(
    channel: ReleaseChannel,
    current: SemanticVersion,
    commit: Option<Seq<char>>,
    published: Seq<char>,
)
    requires
        channel != ReleaseChannel::Nightly,
    ensures
        (is_newer_spec(channel, current, commit, published) == Some(true)) <==> (parse_release_version_spec(
            published,
        ) is Some && version_lt(current, parse_release_version_spec(published)->0)),
        parse_release_version_spec(published) == Some(current) ==> is_newer_spec(
            channel,
            current,
            commit,
            published,
        ) == Some(false),
{
}

/// On the nightly track a release is newer exactly when it names another commit than the
/// running one, and always when the running commit is unknown.
pub proof fn nightly_newer_is_other_commit(
    current: SemanticVersion,
    commit: Option<Seq<char>>,
    published: Seq<char>,
)
    ensures
        is_newer_spec(ReleaseChannel::Nightly, current, commit, published) == Some(
            commit is None || published != commit->0,
        ),
{
}

/// A second poll right after one that started a cycle does nothing: the state stays that
/// of the first cycle, which is checking.
pub proof fn second_poll_is_no_op(m: UpdaterModel)
    requires
        m.poll_starts(),
    ensures
        m.after_poll().status() == AutoUpdateStatus::Checking,
        !m.after_poll().poll_starts(),
        m.after_poll().after_poll() == m.after_poll(),
{
}

/// Once an update is installed, polling does nothing.
pub proof fn poll_after_update_is_no_op(m: UpdaterModel)
    requires
        m.status() == AutoUpdateStatus::Updated,
    ensures
        !m.poll_starts(),
        m.after_poll() == m,
        m.after_poll().status() == AutoUpdateStatus::Updated,
{
}

/// Dismissing an error makes the updater idle; in any other status it changes nothing.
pub proof fn dismiss_clears_only_errors(m: UpdaterModel)
    ensures
        m.status() == AutoUpdateStatus::Errored ==> m.after_dismiss().status()
            == AutoUpdateStatus::Idle,
        m.status() != AutoUpdateStatus::Errored ==> m.after_dismiss() == m,
{
}

/// A failed fetch ends the cycle in error, and no later report leads to a download, a
/// mount, a copy or an unmount until the next poll.
pub proof fn failed_fetch_ends_cycle(m: UpdaterModel, e: CycleEvent)
    requires
        m.phase == Some(CyclePhase::Fetching),
        e is Failed,
    ensures
        m.after_event(e).status() == AutoUpdateStatus::Errored,
        m.command_after(e) is None,
        !m.writes_flag(e),
        forall|e2: CycleEvent| #[trigger] m.after_event(e).command_after(e2) is None,
{
}

/// A failed mount or copy ends the cycle in error, removes the scratch directory and
/// leaves the notification flag alone.
pub proof fn failed_install_step_cleans_up(m: UpdaterModel, e: CycleEvent)
    requires
        m.phase == Some(CyclePhase::Mounting) || m.phase == Some(CyclePhase::Copying),
        e is Failed,
    ensures
        m.after_event(e).status() == AutoUpdateStatus::Errored,
        m.removes_scratch(e),
        m.command_after(e) is None,
        !m.writes_flag(e),
{
}

} // verus!
