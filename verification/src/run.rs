//! Whole runs: what a sequence of events leads to, and what holds of every
//! such sequence.

use vstd::prelude::*;
use crate::arguments::usage_failure;
use crate::failure::{FailureKind, FailureView};
use crate::locator::classification;
use crate::notification::{failure_notification, success_notification, NotificationView};
use crate::orchestrator::{
    exit_status_of,
    next,
    reported,
    ActionView,
    EventView,
    StateView,
};
use crate::request::single_request;
use crate::settings::ServiceConfigView;

verus! {

/// Where a run stands, and the actions it has asked for so far.
pub struct Run {
    pub state: StateView,
    pub actions: Seq<ActionView>,
}

/// The run that `events` cause from `state`, one step per event. An event
/// that does not belong where the run stands is passed over.
pub open spec fn run(state: StateView, events: Seq<EventView>) -> Run
    decreases events.len(),
{
    if events.len() == 0 {
        Run { state, actions: Seq::empty() }
    } else {
        match next(state, events.first()) {
            Some(step) => {
                let rest = run(step.state, events.drop_first());
                Run { state: rest.state, actions: seq![step.action] + rest.actions }
            },
            None => run(state, events.drop_first()),
        }
    }
}

/// The notifications among `actions`, in their order.
pub open spec fn notifications(actions: Seq<ActionView>) -> Seq<NotificationView>
    decreases actions.len(),
{
    if actions.len() == 0 {
        Seq::empty()
    } else {
        let rest = notifications(actions.drop_first());
        match actions.first() {
            ActionView::Notify { notification } => seq![notification] + rest,
            _ => rest,
        }
    }
}

/// Whether the user has been sent the notification of the run.
pub open spec fn told(state: StateView) -> bool {
    state is Submitted || state is Done || state is ErrorState
}

/// Whether an action resolves the settings or talks to the daemon.
pub open spec fn reaches_out(action: ActionView) -> bool {
    action is ResolveConfig || action is Authenticate || action is Submit
}

/// Whether an action ends the process with a status other than zero.
pub open spec fn exits_in_failure(action: ActionView) -> bool {
    action matches ActionView::Exit { outcome } && exit_status_of(outcome) != 0
}

/// Whether every one of `actions` ends the process in failure.
pub open spec fn only_failing_exits(actions: Seq<ActionView>) -> bool {
    forall|i: int| 0 <= i < actions.len() ==> exits_in_failure(#[trigger] actions[i])
}

/// The actions of a run that gets as far as submitting `uri` with the
/// settings `config`.
pub open spec fn actions_until_submission(
    uri: Seq<char>,
    config: ServiceConfigView,
) -> Seq<ActionView> {
    seq![
        ActionView::ResolveConfig,
        ActionView::Authenticate {
            host_address: config.host_address,
            credentials: config.credentials,
        },
        ActionView::Submit { request: single_request(classification(uri)) },
    ]
}

/// A run takes its first event, then the others.
pub proof fn lemma_run_first(state: StateView, first: EventView, later: Seq<EventView>)
    ensures
        run(state, seq![first] + later) == match next(state, first) {
            Some(step) => Run {
                state: run(step.state, later).state,
                actions: seq![step.action] + run(step.state, later).actions,
            },
            None => run(state, later),
        },
{
    assert((seq![first] + later).drop_first() =~= later);
}

/// The notifications of two lists of actions, one after the other, are those
/// of the first followed by those of the second.
pub proof fn lemma_notifications_of_both(earlier: Seq<ActionView>, later: Seq<ActionView>)
    ensures
        notifications(earlier + later) == notifications(earlier) + notifications(later),
    decreases earlier.len(),
{
    if earlier.len() == 0 {
        assert(earlier + later =~= later);
        assert(notifications(earlier) + notifications(later) =~= notifications(later));
    } else {
        let rest = earlier.drop_first();
        assert((earlier + later).drop_first() =~= rest + later);
        lemma_notifications_of_both(rest, later);
        assert(notifications(earlier + later) =~= notifications(earlier) + notifications(later));
    }
}

/// Whatever events arrive and in whatever order, the user is sent at most one
/// notification, and is sent it exactly when the run comes to have succeeded
/// or failed: a run that had not sent it before has sent one if it now stands
/// at a state after it, and none otherwise; a run that had sent it sends no
/// other.
pub proof fn lemma_one_notification(state: StateView, events: Seq<EventView>)
    ensures
        told(state) ==> told(run(state, events).state),
        notifications(run(state, events).actions).len() == if !told(state) && told(
            run(state, events).state,
        ) {
            1nat
        } else {
            0nat
        },
    decreases events.len(),
{
    if events.len() > 0 {
        match next(state, events.first()) {
            Some(step) => {
                let rest = run(step.state, events.drop_first());
                lemma_one_notification(step.state, events.drop_first());
                lemma_notifications_of_both(seq![step.action], rest.actions);
                reveal_with_fuel(notifications, 2);
            },
            None => {
                lemma_one_notification(state, events.drop_first());
            },
        }
    }
}

/// Once a run has failed it stays failed, and whatever is reported to it, it
/// asks for nothing but the end of the process in failure: no settings are
/// resolved, the daemon is not contacted, nothing more is shown.
pub proof fn lemma_failure_is_final(failure: FailureView, events: Seq<EventView>)
    ensures
        run(StateView::ErrorState { failure }, events).state is ErrorState,
        only_failing_exits(run(StateView::ErrorState { failure }, events).actions),
        notifications(run(StateView::ErrorState { failure }, events).actions) == Seq::<
            NotificationView,
        >::empty(),
    decreases events.len(),
{
    let state = StateView::ErrorState { failure };
    if events.len() > 0 {
        match next(state, events.first()) {
            Some(step) => {
                let rest = run(step.state, events.drop_first());
                lemma_failure_is_final(step.state->failure, events.drop_first());
                assert forall|i: int| 0 <= i < (seq![step.action] + rest.actions).len() implies exits_in_failure(
                    #[trigger] (seq![step.action] + rest.actions)[i],
                ) by {
                    if i > 0 {
                        assert((seq![step.action] + rest.actions)[i] == rest.actions[i - 1]);
                    }
                }
            },
            None => {
                lemma_failure_is_final(failure, events.drop_first());
            },
        }
    }
    lemma_one_notification(state, events);
    assert(notifications(run(state, events).actions) =~= Seq::empty());
}

/// A run that has ended in success takes no further step.
pub proof fn lemma_success_is_final(events: Seq<EventView>)
    ensures
        run(StateView::Done, events) == (Run { state: StateView::Done, actions: Seq::empty() }),
    decreases events.len(),
{
    if events.len() > 0 {
        lemma_success_is_final(events.drop_first());
    }
}

/// Telling a failed run how its notification went ends the process in
/// failure: with the failure of the run where it was shown, with the
/// notifier's own where it was not, which is shown nowhere.
pub proof fn lemma_failed_run_ends(
    failure: FailureView,
    shown: Result<(), Seq<char>>,
    later: Seq<EventView>,
)
    ensures
        ({
            let whole = run(
                StateView::ErrorState { failure },
                seq![EventView::NotifyOutcome(shown)] + later,
            );
            let last = match shown {
                Ok(_) => failure,
                Err(message) => reported(FailureKind::Notify, message),
            };
            &&& whole.actions.len() > 0
            &&& whole.actions[0] == ActionView::Exit { outcome: Err(last) }
            &&& exit_status_of(Err(last)) == 1
            &&& notifications(whole.actions) == Seq::<NotificationView>::empty()
        }),
{
    let state = StateView::ErrorState { failure };
    lemma_run_first(state, EventView::NotifyOutcome(shown), later);
    lemma_failure_is_final(failure, seq![EventView::NotifyOutcome(shown)] + later);
}

/// What follows a failure: the failure is shown under the title `Error`, and
/// after that the run only ends. `before` is what the run had asked for until
/// then, none of it a notification.
proof fn lemma_failure_is_shown_once(
    before: Seq<ActionView>,
    failure: FailureView,
    later: Seq<EventView>,
)
    requires
        notifications(before) == Seq::<NotificationView>::empty(),
    ensures
        ({
            let rest = run(StateView::ErrorState { failure }, later);
            let shown = ActionView::Notify { notification: failure_notification(failure) };
            &&& rest.state is ErrorState
            &&& only_failing_exits(rest.actions)
            &&& notifications(before + seq![shown] + rest.actions) == seq![
                failure_notification(failure),
            ]
            &&& forall|i: int|
                before.len() <= i < (before + seq![shown] + rest.actions).len() ==> !reaches_out(
                    (before + seq![shown] + rest.actions)[i],
                )
        }),
{
    let rest = run(StateView::ErrorState { failure }, later);
    let shown = ActionView::Notify { notification: failure_notification(failure) };
    lemma_failure_is_final(failure, later);
    lemma_notifications_of_both(before + seq![shown], rest.actions);
    lemma_notifications_of_both(before, seq![shown]);
    reveal_with_fuel(notifications, 2);
    assert(notifications(before + seq![shown] + rest.actions) =~= seq![
        failure_notification(failure),
    ]);
    assert forall|i: int|
        before.len() <= i < (before + seq![shown] + rest.actions).len() implies !reaches_out(
        (before + seq![shown] + rest.actions)[i],
    ) by {
        if i > before.len() {
            assert(exits_in_failure(rest.actions[i - before.len() - 1]));
        }
    }
}

/// A run that is started with one argument, resolves its settings and opens
/// a session has asked for these three steps, in this order, and goes on from
/// there.
pub proof fn lemma_run_until_submission(
    args: Seq<Seq<char>>,
    config: ServiceConfigView,
    later: Seq<EventView>,
)
    requires
        args.len() == 2,
    ensures
        run(
            StateView::Start,
            seq![
                EventView::Arguments(args),
                EventView::ConfigOutcome(Ok(config)),
                EventView::AuthOutcome(Ok(())),
            ] + later,
        ) == (Run {
            state: run(StateView::Authenticated, later).state,
            actions: actions_until_submission(args[1], config) + run(
                StateView::Authenticated,
                later,
            ).actions,
        }),
        notifications(actions_until_submission(args[1], config)) == Seq::<
            NotificationView,
        >::empty(),
{
    let first = EventView::Arguments(args);
    let second = EventView::ConfigOutcome(Ok(config));
    let third = EventView::AuthOutcome(Ok(()));
    let locator = classification(args[1]);
    let rest = run(StateView::Authenticated, later);
    assert(seq![first, second, third] + later =~= seq![first] + (seq![second] + (seq![third]
        + later)));
    lemma_run_first(StateView::Start, first, seq![second] + (seq![third] + later));
    lemma_run_first(StateView::UriRead { locator }, second, seq![third] + later);
    lemma_run_first(StateView::ConfigResolved { locator }, third, later);
    let steps = actions_until_submission(args[1], config);
    assert(seq![steps[0]] + (seq![steps[1]] + (seq![steps[2]] + rest.actions)) =~= steps
        + rest.actions);
    reveal_with_fuel(notifications, 4);
    assert(notifications(steps) =~= Seq::empty());
}

/// Started with any number of arguments but one, a run fails at once with a
/// usage failure. It shows that failure and, whatever follows, does nothing
/// else but end: the settings are never resolved and the daemon is never
/// contacted.
pub proof fn lemma_wrong_argument_count(args: Seq<Seq<char>>, later: Seq<EventView>)
    requires
        args.len() != 2,
    ensures
        ({
            let whole = run(StateView::Start, seq![EventView::Arguments(args)] + later);
            let rest = run(StateView::ErrorState { failure: usage_failure() }, later);
            &&& whole.state is ErrorState
            &&& whole.actions == seq![
                ActionView::Notify { notification: failure_notification(usage_failure()) },
            ] + rest.actions
            &&& only_failing_exits(rest.actions)
            &&& notifications(whole.actions) == seq![failure_notification(usage_failure())]
            &&& forall|i: int| 0 <= i < whole.actions.len() ==> !reaches_out(whole.actions[i])
        }),
{
    let before = Seq::<ActionView>::empty();
    let shown = ActionView::Notify { notification: failure_notification(usage_failure()) };
    let rest = run(StateView::ErrorState { failure: usage_failure() }, later);
    lemma_run_first(StateView::Start, EventView::Arguments(args), later);
    lemma_failure_is_shown_once(before, usage_failure(), later);
    assert(before + seq![shown] + rest.actions =~= seq![shown] + rest.actions);
}

/// Where the settings cannot be resolved, for want of any of the required
/// entries or for any other reason, the run fails with the resolver's failure.
/// It shows that failure under the title `Error` and, whatever follows, does
/// nothing else but end: the daemon is never asked for a session and no
/// request is sent.
pub proof fn lemma_unresolved_settings(
    args: Seq<Seq<char>>,
    failure: FailureView,
    later: Seq<EventView>,
)
    requires
        args.len() == 2,
    ensures
        ({
            let whole = run(
                StateView::Start,
                seq![EventView::Arguments(args), EventView::ConfigOutcome(Err(failure))] + later,
            );
            let rest = run(StateView::ErrorState { failure }, later);
            &&& whole.state is ErrorState
            &&& whole.actions == seq![
                ActionView::ResolveConfig,
                ActionView::Notify { notification: failure_notification(failure) },
            ] + rest.actions
            &&& only_failing_exits(rest.actions)
            &&& notifications(whole.actions) == seq![failure_notification(failure)]
            &&& forall|i: int|
                0 <= i < whole.actions.len() ==> !(whole.actions[i] is Authenticate)
                    && !(whole.actions[i] is Submit)
        }),
{
    let first = EventView::Arguments(args);
    let second = EventView::ConfigOutcome(Err(failure));
    let before = seq![ActionView::ResolveConfig];
    let shown = ActionView::Notify { notification: failure_notification(failure) };
    let rest = run(StateView::ErrorState { failure }, later);
    assert(seq![first, second] + later =~= seq![first] + (seq![second] + later));
    lemma_run_first(StateView::Start, first, seq![second] + later);
    lemma_run_first(StateView::UriRead { locator: classification(args[1]) }, second, later);
    reveal_with_fuel(notifications, 2);
    lemma_failure_is_shown_once(before, failure, later);
    assert(before + seq![shown] + rest.actions =~= seq![ActionView::ResolveConfig] + (seq![shown]
        + rest.actions));
    assert(before + seq![shown] + rest.actions =~= seq![ActionView::ResolveConfig, shown]
        + rest.actions);
}

/// Where the daemon opens no session, the run fails with an authentication
/// failure that carries the daemon's text. It shows that failure under the
/// title `Error` and, whatever follows, does nothing else but end: no request
/// is sent.
pub proof fn lemma_refused_session(
    args: Seq<Seq<char>>,
    config: ServiceConfigView,
    message: Seq<char>,
    later: Seq<EventView>,
)
    requires
        args.len() == 2,
    ensures
        ({
            let failure = reported(FailureKind::Auth, message);
            let whole = run(
                StateView::Start,
                seq![
                    EventView::Arguments(args),
                    EventView::ConfigOutcome(Ok(config)),
                    EventView::AuthOutcome(Err(message)),
                ] + later,
            );
            let rest = run(StateView::ErrorState { failure }, later);
            &&& whole.state is ErrorState
            &&& whole.actions == seq![
                ActionView::ResolveConfig,
                ActionView::Authenticate {
                    host_address: config.host_address,
                    credentials: config.credentials,
                },
                ActionView::Notify { notification: failure_notification(failure) },
            ] + rest.actions
            &&& only_failing_exits(rest.actions)
            &&& notifications(whole.actions) == seq![failure_notification(failure)]
            &&& forall|i: int| 0 <= i < whole.actions.len() ==> !(whole.actions[i] is Submit)
        }),
{
    let failure = reported(FailureKind::Auth, message);
    let first = EventView::Arguments(args);
    let second = EventView::ConfigOutcome(Ok(config));
    let third = EventView::AuthOutcome(Err(message));
    let locator = classification(args[1]);
    let asked = ActionView::Authenticate {
        host_address: config.host_address,
        credentials: config.credentials,
    };
    let before = seq![ActionView::ResolveConfig, asked];
    let shown = ActionView::Notify { notification: failure_notification(failure) };
    let rest = run(StateView::ErrorState { failure }, later);
    assert(seq![first, second, third] + later =~= seq![first] + (seq![second] + (seq![third]
        + later)));
    lemma_run_first(StateView::Start, first, seq![second] + (seq![third] + later));
    lemma_run_first(StateView::UriRead { locator }, second, seq![third] + later);
    lemma_run_first(StateView::ConfigResolved { locator }, third, later);
    reveal_with_fuel(notifications, 3);
    lemma_failure_is_shown_once(before, failure, later);
    assert(before + seq![shown] + rest.actions =~= seq![ActionView::ResolveConfig] + (seq![asked]
        + (seq![shown] + rest.actions)));
    assert(before + seq![shown] + rest.actions =~= seq![ActionView::ResolveConfig, asked, shown]
        + rest.actions);
}

/// Where the daemon does not take the request, the run fails with a
/// submission failure that carries the daemon's text, and shows that failure
/// under the title `Error`. Whatever follows, it does nothing else but end.
pub proof fn lemma_refused_request(
    args: Seq<Seq<char>>,
    config: ServiceConfigView,
    message: Seq<char>,
    later: Seq<EventView>,
)
    requires
        args.len() == 2,
    ensures
        ({
            let failure = reported(FailureKind::Submission, message);
            let whole = run(
                StateView::Start,
                seq![
                    EventView::Arguments(args),
                    EventView::ConfigOutcome(Ok(config)),
                    EventView::AuthOutcome(Ok(())),
                    EventView::SubmitOutcome(Err(message)),
                ] + later,
            );
            let rest = run(StateView::ErrorState { failure }, later);
            &&& whole.state is ErrorState
            &&& whole.actions == actions_until_submission(args[1], config) + seq![
                ActionView::Notify { notification: failure_notification(failure) },
            ] + rest.actions
            &&& only_failing_exits(rest.actions)
            &&& notifications(whole.actions) == seq![failure_notification(failure)]
        }),
{
    let failure = reported(FailureKind::Submission, message);
    let fourth = EventView::SubmitOutcome(Err(message));
    let before = actions_until_submission(args[1], config);
    let shown = ActionView::Notify { notification: failure_notification(failure) };
    let rest = run(StateView::ErrorState { failure }, later);
    assert(seq![
        EventView::Arguments(args),
        EventView::ConfigOutcome(Ok(config)),
        EventView::AuthOutcome(Ok(())),
        fourth,
    ] + later =~= seq![
        EventView::Arguments(args),
        EventView::ConfigOutcome(Ok(config)),
        EventView::AuthOutcome(Ok(())),
    ] + (seq![fourth] + later));
    lemma_run_until_submission(args, config, seq![fourth] + later);
    lemma_run_first(StateView::Authenticated, fourth, later);
    lemma_failure_is_shown_once(before, failure, later);
    assert(before + seq![shown] + rest.actions =~= before + (seq![shown] + rest.actions));
}

/// Where the daemon took the request but the notification of it cannot be
/// shown, the run ends in failure with the notifier's failure. That failure
/// is shown nowhere: the one notification of the run stays the one that was
/// tried.
pub proof fn lemma_unshown_success(
    args: Seq<Seq<char>>,
    config: ServiceConfigView,
    message: Seq<char>,
    later: Seq<EventView>,
)
    requires
        args.len() == 2,
    ensures
        ({
            let failure = reported(FailureKind::Notify, message);
            let whole = run(
                StateView::Start,
                seq![
                    EventView::Arguments(args),
                    EventView::ConfigOutcome(Ok(config)),
                    EventView::AuthOutcome(Ok(())),
                    EventView::SubmitOutcome(Ok(())),
                    EventView::NotifyOutcome(Err(message)),
                ] + later,
            );
            let rest = run(StateView::ErrorState { failure }, later);
            &&& whole.state is ErrorState
            &&& whole.actions == actions_until_submission(args[1], config) + seq![
                ActionView::Notify { notification: success_notification() },
                ActionView::Exit { outcome: Err(failure) },
            ] + rest.actions
            &&& only_failing_exits(rest.actions)
            &&& exit_status_of(Err(failure)) == 1
            &&& notifications(whole.actions) == seq![success_notification()]
        }),
{
    let failure = reported(FailureKind::Notify, message);
    let fourth = EventView::SubmitOutcome(Ok(()));
    let fifth = EventView::NotifyOutcome(Err(message));
    let before = actions_until_submission(args[1], config);
    let shown = ActionView::Notify { notification: success_notification() };
    let left = ActionView::Exit { outcome: Err(failure) };
    let rest = run(StateView::ErrorState { failure }, later);
    assert(seq![
        EventView::Arguments(args),
        EventView::ConfigOutcome(Ok(config)),
        EventView::AuthOutcome(Ok(())),
        fourth,
        fifth,
    ] + later =~= seq![
        EventView::Arguments(args),
        EventView::ConfigOutcome(Ok(config)),
        EventView::AuthOutcome(Ok(())),
    ] + (seq![fourth] + (seq![fifth] + later)));
    lemma_run_until_submission(args, config, seq![fourth] + (seq![fifth] + later));
    lemma_run_first(StateView::Authenticated, fourth, seq![fifth] + later);
    lemma_run_first(StateView::Submitted, fifth, later);
    lemma_failure_is_final(failure, later);
    assert(before + seq![shown, left] + rest.actions =~= before + (seq![shown] + (seq![left]
        + rest.actions)));
    lemma_notifications_of_both(before + seq![shown, left], rest.actions);
    lemma_notifications_of_both(before, seq![shown, left]);
    reveal_with_fuel(notifications, 3);
    assert(notifications(before + seq![shown, left] + rest.actions) =~= seq![
        success_notification(),
    ]);
}

/// Where the settings are resolved, the daemon opens a session and takes the
/// request, and the notification is shown, the run ends in success with
/// status zero. It has asked for each step once and in order, and the one
/// notification it has shown is the one with the title `Torrent added`.
/// Nothing that follows changes that.
pub proof fn lemma_successful_run(
    args: Seq<Seq<char>>,
    config: ServiceConfigView,
    later: Seq<EventView>,
)
    requires
        args.len() == 2,
    ensures
        ({
            let whole = run(
                StateView::Start,
                seq![
                    EventView::Arguments(args),
                    EventView::ConfigOutcome(Ok(config)),
                    EventView::AuthOutcome(Ok(())),
                    EventView::SubmitOutcome(Ok(())),
                    EventView::NotifyOutcome(Ok(())),
                ] + later,
            );
            &&& whole.state is Done
            &&& whole.actions == actions_until_submission(args[1], config) + seq![
                ActionView::Notify { notification: success_notification() },
                ActionView::Exit { outcome: Ok(()) },
            ]
            &&& notifications(whole.actions) == seq![success_notification()]
            &&& exit_status_of(Ok(())) == 0
        }),
{
    let fourth = EventView::SubmitOutcome(Ok(()));
    let fifth = EventView::NotifyOutcome(Ok(()));
    let before = actions_until_submission(args[1], config);
    let shown = ActionView::Notify { notification: success_notification() };
    let left = ActionView::Exit { outcome: Ok(()) };
    assert(seq![
        EventView::Arguments(args),
        EventView::ConfigOutcome(Ok(config)),
        EventView::AuthOutcome(Ok(())),
        fourth,
        fifth,
    ] + later =~= seq![
        EventView::Arguments(args),
        EventView::ConfigOutcome(Ok(config)),
        EventView::AuthOutcome(Ok(())),
    ] + (seq![fourth] + (seq![fifth] + later)));
    lemma_run_until_submission(args, config, seq![fourth] + (seq![fifth] + later));
    lemma_run_first(StateView::Authenticated, fourth, seq![fifth] + later);
    lemma_run_first(StateView::Submitted, fifth, later);
    lemma_success_is_final(later);
    assert(before + seq![shown, left] =~= before + (seq![shown] + (seq![left] + Seq::<
        ActionView,
    >::empty())));
    lemma_notifications_of_both(before, seq![shown, left]);
    reveal_with_fuel(notifications, 3);
    assert(notifications(before + seq![shown, left]) =~= seq![success_notification()]);
}

} // verus!
