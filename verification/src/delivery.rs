//! What a watcher delivers over a whole run of observations, and what is
//! true of every such run.
//!
//! A run is the sequence of observations a worker reports, in order. The
//! functions here fold [`next_state`] and [`next_command`] over a run; the
//! proof functions state what the subscriber can rely on.

use vstd::prelude::*;
use crate::event::RawFsEventView;
use crate::notification::{installation_failure, translation, ChangeNotificationView};
use crate::watcher::{
    next_command, next_state, CommandView, DirectoryWatcherView, ObservationView, WatcherState,
};

verus! {

/// What a watcher on `path` hands to the subscriber in answer to one
/// observation: the notification of its command if that is a delivery,
/// and nothing otherwise.
pub open spec fn handed_over(
    path: Seq<char>,
    state: WatcherState,
    observation: ObservationView,
) -> Seq<ChangeNotificationView> {
    match next_command(path, state, observation) {
        CommandView::Deliver { notification, .. } => seq![notification],
        _ => Seq::empty(),
    }
}

/// The state a watcher that starts in `state` is in after the whole run.
pub open spec fn state_after(state: WatcherState, run: Seq<ObservationView>) -> WatcherState
    decreases run.len(),
{
    if run.len() == 0 {
        state
    } else {
        state_after(next_state(state, run[0]), run.drop_first())
    }
}

/// Everything a watcher on `path` that starts in `state` hands to the
/// subscriber over the run, in the order in which it is handed over.
pub open spec fn delivered(
    path: Seq<char>,
    state: WatcherState,
    run: Seq<ObservationView>,
) -> Seq<ChangeNotificationView>
    decreases run.len(),
{
    if run.len() == 0 {
        Seq::empty()
    } else {
        handed_over(path, state, run[0]) + delivered(
            path,
            next_state(state, run[0]),
            run.drop_first(),
        )
    }
}

/// The filesystem events among the observations of a run, in order.
pub open spec fn events_of(run: Seq<ObservationView>) -> Seq<RawFsEventView>
    decreases run.len(),
{
    if run.len() == 0 {
        Seq::empty()
    } else {
        let rest = events_of(run.drop_first());
        match run[0] {
            ObservationView::Event(event) => seq![event] + rest,
            _ => rest,
        }
    }
}

/// The translations of `events`, one for one and in the same order.
pub open spec fn translations(events: Seq<RawFsEventView>) -> Seq<ChangeNotificationView> {
    events.map_values(|event: RawFsEventView| translation(event))
}

/// Whether an observation says how the installation ended.
pub open spec fn ends_installation(observation: ObservationView) -> bool {
    observation is Installed || observation is InstallFailed
}

/// Whether no observation of the run says how the installation ended.
pub open spec fn installation_pending(run: Seq<ObservationView>) -> bool {
    forall|i: int| 0 <= i < run.len() ==> !ends_installation(#[trigger] run[i])
}

/// No notification at all.
pub open spec fn nothing() -> Seq<ChangeNotificationView> {
    Seq::empty()
}

/// A run may be cut anywhere: what is delivered over the whole is what is
/// delivered over the first part, followed by what the watcher delivers over
/// the second part from the state the first part left it in.
pub proof fn lemma_run_splits(
    path: Seq<char>,
    state: WatcherState,
    head: Seq<ObservationView>,
    tail: Seq<ObservationView>,
)
    ensures
        state_after(state, head + tail) == state_after(state_after(state, head), tail),
        delivered(path, state, head + tail) == delivered(path, state, head) + delivered(
            path,
            state_after(state, head),
            tail,
        ),
    decreases head.len(),
{
    if head.len() == 0 {
        assert(head + tail =~= tail);
    } else {
        assert((head + tail).drop_first() =~= head.drop_first() + tail);
        lemma_run_splits(path, next_state(state, head[0]), head.drop_first(), tail);
    }
}

/// A running watcher delivers exactly one notification for every event it is
/// given and nothing else: as many notifications as events, in the order of
/// the events, each the translation of its event and so naming exactly the
/// paths that the event names. Whatever else is observed in between changes
/// nothing about that, and the watcher is still running afterwards.
pub proof fn lemma_running_delivers_every_event(path: Seq<char>, run: Seq<ObservationView>)
    ensures
        state_after(WatcherState::Running, run) == WatcherState::Running,
        delivered(path, WatcherState::Running, run) == translations(events_of(run)),
        delivered(path, WatcherState::Running, run).len() == events_of(run).len(),
        forall|i: int|
            0 <= i < events_of(run).len() ==> {
                &&& (#[trigger] delivered(path, WatcherState::Running, run)[i]) == translation(
                    events_of(run)[i],
                )
                &&& delivered(path, WatcherState::Running, run)[i].paths == events_of(run)[i].paths
            },
    decreases run.len(),
{
    if run.len() == 0 {
        assert(delivered(path, WatcherState::Running, run) =~= translations(events_of(run)));
    } else {
        lemma_running_delivers_every_event(path, run.drop_first());
        assert(delivered(path, WatcherState::Running, run) =~= translations(events_of(run)));
    }
}

/// While the installation is pending a watcher delivers nothing and stays
/// where it is, whatever it is told.
pub proof fn lemma_installing_is_silent(path: Seq<char>, run: Seq<ObservationView>)
    requires
        installation_pending(run),
    ensures
        state_after(WatcherState::Installing, run) == WatcherState::Installing,
        delivered(path, WatcherState::Installing, run) == nothing(),
    decreases run.len(),
{
    if run.len() > 0 {
        let rest = run.drop_first();
        assert(!ends_installation(run[0]));
        assert forall|i: int| 0 <= i < rest.len() implies !ends_installation(#[trigger] rest[i]) by {
            assert(rest[i] == run[i + 1]);
        }
        lemma_installing_is_silent(path, rest);
        assert(delivered(path, WatcherState::Installing, run) =~= nothing());
    }
}

/// Nothing that happened before the watch was in place is ever delivered:
/// over a run in which the installation succeeds, the notifications are
/// exactly the translations of the events observed after that point.
pub proof fn lemma_no_replay(
    path: Seq<char>,
    before: Seq<ObservationView>,
    after: Seq<ObservationView>,
)
    requires
        installation_pending(before),
    ensures
        state_after(
            WatcherState::Installing,
            before + seq![ObservationView::Installed] + after,
        ) == WatcherState::Running,
        delivered(
            path,
            WatcherState::Installing,
            before + seq![ObservationView::Installed] + after,
        ) == translations(events_of(after)),
{
    let installed = seq![ObservationView::Installed];
    lemma_installing_is_silent(path, before);
    lemma_run_splits(path, WatcherState::Installing, before, installed);
    lemma_run_splits(path, WatcherState::Installing, before + installed, after);
    lemma_running_delivers_every_event(path, after);
    assert(state_after(WatcherState::Installing, installed) == WatcherState::Running
        && delivered(path, WatcherState::Installing, installed) =~= nothing()) by {
        assert(installed.drop_first() =~= Seq::<ObservationView>::empty());
        reveal_with_fuel(state_after, 2);
        reveal_with_fuel(delivered, 2);
    }
    assert(delivered(path, WatcherState::Installing, before + installed + after)
        =~= translations(events_of(after)));
}

/// Once stopped, a watcher delivers nothing more and stays stopped.
pub proof fn lemma_stopped_is_silent(path: Seq<char>, run: Seq<ObservationView>)
    ensures
        state_after(WatcherState::Stopped, run) == WatcherState::Stopped,
        delivered(path, WatcherState::Stopped, run) == nothing(),
    decreases run.len(),
{
    if run.len() > 0 {
        lemma_stopped_is_silent(path, run.drop_first());
        assert(delivered(path, WatcherState::Stopped, run) =~= nothing());
    }
}

/// A watch that cannot be installed never fails in silence: over a run in
/// which the installation fails, exactly one notification is delivered, the
/// one that reports the failure with its reason and the watched path, and
/// the watcher ends up stopped.
pub proof fn lemma_failed_installation_reports_once(
    path: Seq<char>,
    before: Seq<ObservationView>,
    reason: Seq<char>,
    after: Seq<ObservationView>,
)
    requires
        installation_pending(before),
    ensures
        state_after(
            WatcherState::Installing,
            before + seq![ObservationView::InstallFailed(reason)] + after,
        ) == WatcherState::Stopped,
        delivered(
            path,
            WatcherState::Installing,
            before + seq![ObservationView::InstallFailed(reason)] + after,
        ) == seq![installation_failure(path, reason)],
{
    let failed = seq![ObservationView::InstallFailed(reason)];
    let report = seq![installation_failure(path, reason)];
    lemma_installing_is_silent(path, before);
    lemma_run_splits(path, WatcherState::Installing, before, failed);
    lemma_run_splits(path, WatcherState::Installing, before + failed, after);
    lemma_stopped_is_silent(path, after);
    assert(state_after(WatcherState::Installing, failed) == WatcherState::Stopped
        && delivered(path, WatcherState::Installing, failed) =~= report) by {
        assert(failed.drop_first() =~= Seq::<ObservationView>::empty());
        reveal_with_fuel(state_after, 2);
        reveal_with_fuel(delivered, 2);
    }
    assert(delivered(path, WatcherState::Installing, before + failed + after) =~= report);
}

/// Events are never merged: a running watcher that is given the same event
/// `count` times in a row delivers its translation `count` times.
pub proof fn lemma_repeated_events_are_not_merged(
    path: Seq<char>,
    event: RawFsEventView,
    count: nat,
)
    ensures
        delivered(
            path,
            WatcherState::Running,
            Seq::new(count, |i: int| ObservationView::Event(event)),
        ) == Seq::new(count, |i: int| translation(event)),
    decreases count,
{
    let run = Seq::new(count, |i: int| ObservationView::Event(event));
    if count > 0 {
        let shorter = (count - 1) as nat;
        lemma_repeated_events_are_not_merged(path, event, shorter);
        assert(run.drop_first() =~= Seq::new(shorter, |i: int| ObservationView::Event(event)));
    }
    assert(delivered(path, WatcherState::Running, run) =~= Seq::new(
        count,
        |i: int| translation(event),
    ));
}

/// One of two watchers that are active at the same time.
#[derive(Clone, Copy, Debug, PartialEq, Eq, Hash, Structural)]
pub enum Side {
    First,
    Second,
}

/// The items of `mixed` that belong to `side`, in order.
pub open spec fn share_of<T>(side: Side, mixed: Seq<(Side, T)>) -> Seq<T>
    decreases mixed.len(),
{
    if mixed.len() == 0 {
        Seq::empty()
    } else {
        let rest = share_of(side, mixed.drop_first());
        if mixed[0].0 == side {
            seq![mixed[0].1] + rest
        } else {
            rest
        }
    }
}

/// `items`, each marked as belonging to `side`.
pub open spec fn marked<T>(side: Side, items: Seq<T>) -> Seq<(Side, T)> {
    items.map_values(|item: T| (side, item))
}

/// Everything two watchers hand to their common subscriber when their
/// workers' observations arrive interleaved in any way, each observation
/// marked with the watcher whose worker made it and each notification with
/// the watcher that delivered it.
pub open spec fn delivered_by_two(
    first: DirectoryWatcherView,
    second: DirectoryWatcherView,
    mixed: Seq<(Side, ObservationView)>,
) -> Seq<(Side, ChangeNotificationView)>
    decreases mixed.len(),
{
    if mixed.len() == 0 {
        Seq::empty()
    } else {
        let observation = mixed[0].1;
        match mixed[0].0 {
            Side::First => marked(
                Side::First,
                handed_over(first.path, first.state, observation),
            ) + delivered_by_two(
                DirectoryWatcherView {
                    path: first.path,
                    state: next_state(first.state, observation),
                },
                second,
                mixed.drop_first(),
            ),
            Side::Second => marked(
                Side::Second,
                handed_over(second.path, second.state, observation),
            ) + delivered_by_two(
                first,
                DirectoryWatcherView {
                    path: second.path,
                    state: next_state(second.state, observation),
                },
                mixed.drop_first(),
            ),
        }
    }
}

/// What `share_of` picks from items that were all marked with one side:
/// all of them for that side, none for the other.
proof fn lemma_share_of_marked<T>(side: Side, owner: Side, items: Seq<T>, rest: Seq<(Side, T)>)
    requires
        items.len() <= 1,
    ensures
        share_of(side, marked(owner, items) + rest) == if side == owner {
            items + share_of(side, rest)
        } else {
            share_of(side, rest)
        },
{
    let all = marked(owner, items) + rest;
    if items.len() == 0 {
        assert(all =~= rest);
        assert(items + share_of(side, rest) =~= share_of(side, rest));
    } else {
        assert(all.drop_first() =~= rest);
        assert(all[0] == (owner, items[0]));
        assert(items =~= seq![items[0]]);
    }
}

/// Two watchers never deliver for one another: however the observations of
/// their workers interleave, what each of them delivers is exactly what it
/// would deliver alone, over the observations of its own worker.
pub proof fn lemma_no_cross_delivery(
    first: DirectoryWatcherView,
    second: DirectoryWatcherView,
    mixed: Seq<(Side, ObservationView)>,
)
    ensures
        share_of(Side::First, delivered_by_two(first, second, mixed)) == delivered(
            first.path,
            first.state,
            share_of(Side::First, mixed),
        ),
        share_of(Side::Second, delivered_by_two(first, second, mixed)) == delivered(
            second.path,
            second.state,
            share_of(Side::Second, mixed),
        ),
    decreases mixed.len(),
{
    if mixed.len() > 0 {
        let observation = mixed[0].1;
        let rest = mixed.drop_first();
        match mixed[0].0 {
            Side::First => {
                let moved = DirectoryWatcherView {
                    path: first.path,
                    state: next_state(first.state, observation),
                };
                let out = handed_over(first.path, first.state, observation);
                lemma_no_cross_delivery(moved, second, rest);
                lemma_share_of_marked(Side::First, Side::First, out, delivered_by_two(moved, second, rest));
                lemma_share_of_marked(Side::Second, Side::First, out, delivered_by_two(moved, second, rest));
                assert((seq![observation] + share_of(Side::First, rest)).drop_first() =~= share_of(
                    Side::First,
                    rest,
                ));
            },
            Side::Second => {
                let moved = DirectoryWatcherView {
                    path: second.path,
                    state: next_state(second.state, observation),
                };
                let out = handed_over(second.path, second.state, observation);
                lemma_no_cross_delivery(first, moved, rest);
                lemma_share_of_marked(Side::First, Side::Second, out, delivered_by_two(first, moved, rest));
                lemma_share_of_marked(Side::Second, Side::Second, out, delivered_by_two(first, moved, rest));
                assert((seq![observation] + share_of(Side::Second, rest)).drop_first() =~= share_of(
                    Side::Second,
                    rest,
                ));
            },
        }
    }
}

/// Whether every path that `notification` names lies in `subtree`.
pub open spec fn names_only(notification: ChangeNotificationView, subtree: Set<Seq<char>>) -> bool {
    forall|i: int|
        0 <= i < notification.paths.len() ==> subtree.contains(#[trigger] notification.paths[i])
}

/// Whether no path that `notification` names lies in `subtree`.
pub open spec fn names_none(notification: ChangeNotificationView, subtree: Set<Seq<char>>) -> bool {
    forall|i: int|
        0 <= i < notification.paths.len() ==> !subtree.contains(#[trigger] notification.paths[i])
}

/// Whether `observation`, if it is a filesystem event, names only paths that
/// lie in `subtree`.
pub open spec fn observed_within(observation: ObservationView, subtree: Set<Seq<char>>) -> bool {
    observation matches ObservationView::Event(event) ==> forall|i: int|
        0 <= i < event.paths.len() ==> subtree.contains(#[trigger] event.paths[i])
}

/// A watcher invents no paths: if everything its worker observes happened in
/// the subtree of the watched path, then every notification it delivers,
/// the report of a failed installation included, names only paths of that
/// subtree.
pub proof fn lemma_notifications_stay_in_the_subtree(
    path: Seq<char>,
    state: WatcherState,
    run: Seq<ObservationView>,
    subtree: Set<Seq<char>>,
)
    requires
        subtree.contains(path),
        forall|k: int| 0 <= k < run.len() ==> observed_within(#[trigger] run[k], subtree),
    ensures
        forall|k: int|
            0 <= k < delivered(path, state, run).len() ==> names_only(
                #[trigger] delivered(path, state, run)[k],
                subtree,
            ),
    decreases run.len(),
{
    if run.len() > 0 {
        let rest = run.drop_first();
        let first = handed_over(path, state, run[0]);
        let later = delivered(path, next_state(state, run[0]), rest);
        assert forall|k: int| 0 <= k < rest.len() implies observed_within(
            #[trigger] rest[k],
            subtree,
        ) by {
            assert(rest[k] == run[k + 1]);
        }
        lemma_notifications_stay_in_the_subtree(path, next_state(state, run[0]), rest, subtree);
        assert(observed_within(run[0], subtree));
        assert forall|k: int| 0 <= k < (first + later).len() implies names_only(
            #[trigger] (first + later)[k],
            subtree,
        ) by {
            if k < first.len() {
                assert((first + later)[k] == first[0]);
            } else {
                assert((first + later)[k] == later[k - first.len()]);
            }
        }
    }
}

/// The subtree of one of two watchers.
pub open spec fn subtree_of(
    side: Side,
    first_subtree: Set<Seq<char>>,
    second_subtree: Set<Seq<char>>,
) -> Set<Seq<char>> {
    match side {
        Side::First => first_subtree,
        Side::Second => second_subtree,
    }
}

/// The other one of two watchers.
pub open spec fn other(side: Side) -> Side {
    match side {
        Side::First => Side::Second,
        Side::Second => Side::First,
    }
}

/// Whether a notification names only paths of the subtree of the watcher
/// that delivered it, and none of the other watcher's.
pub open spec fn keeps_apart(
    item: (Side, ChangeNotificationView),
    first_subtree: Set<Seq<char>>,
    second_subtree: Set<Seq<char>>,
) -> bool {
    &&& names_only(item.1, subtree_of(item.0, first_subtree, second_subtree))
    &&& names_none(item.1, subtree_of(other(item.0), first_subtree, second_subtree))
}

/// Two watchers on disjoint subtrees stay apart: when each worker observes
/// only what happened in the subtree of its own watched path, then, however
/// the observations interleave, every notification names only paths of the
/// subtree of the watcher that delivered it, and none of the other's.
pub proof fn lemma_disjoint_watches_stay_apart(
    first: DirectoryWatcherView,
    second: DirectoryWatcherView,
    mixed: Seq<(Side, ObservationView)>,
    first_subtree: Set<Seq<char>>,
    second_subtree: Set<Seq<char>>,
)
    requires
        first_subtree.disjoint(second_subtree),
        first_subtree.contains(first.path),
        second_subtree.contains(second.path),
        forall|k: int|
            0 <= k < mixed.len() ==> observed_within(
                (#[trigger] mixed[k]).1,
                subtree_of(mixed[k].0, first_subtree, second_subtree),
            ),
    ensures
        forall|k: int|
            0 <= k < delivered_by_two(first, second, mixed).len() ==> keeps_apart(
                #[trigger] delivered_by_two(first, second, mixed)[k],
                first_subtree,
                second_subtree,
            ),
    decreases mixed.len(),
{
    if mixed.len() > 0 {
        let observation = mixed[0].1;
        let rest = mixed.drop_first();
        assert forall|k: int| 0 <= k < rest.len() implies observed_within(
            (#[trigger] rest[k]).1,
            subtree_of(rest[k].0, first_subtree, second_subtree),
        ) by {
            assert(rest[k] == mixed[k + 1]);
        }
        assert(observed_within(observation, subtree_of(mixed[0].0, first_subtree, second_subtree)));
        let (moved_first, moved_second, now) = match mixed[0].0 {
            Side::First => (
                DirectoryWatcherView {
                    path: first.path,
                    state: next_state(first.state, observation),
                },
                second,
                marked(Side::First, handed_over(first.path, first.state, observation)),
            ),
            Side::Second => (
                first,
                DirectoryWatcherView {
                    path: second.path,
                    state: next_state(second.state, observation),
                },
                marked(Side::Second, handed_over(second.path, second.state, observation)),
            ),
        };
        let later = delivered_by_two(moved_first, moved_second, rest);
        lemma_disjoint_watches_stay_apart(
            moved_first,
            moved_second,
            rest,
            first_subtree,
            second_subtree,
        );
        assert forall|k: int| 0 <= k < (now + later).len() implies keeps_apart(
            #[trigger] (now + later)[k],
            first_subtree,
            second_subtree,
        ) by {
            if k < now.len() {
                assert((now + later)[k] == now[0]);
            } else {
                assert((now + later)[k] == later[k - now.len()]);
            }
        }
    }
}

} // verus!
