use vstd::prelude::*;

use crate::message_loop::{
    is_finished, spec_outcome, spec_start, spec_step, LoopAction, LoopError, LoopEvent, LoopState,
};

verus! {

/// The window that an action works on, if it works on one.
pub open spec fn action_window(action: LoopAction) -> Option<isize> {
    match action {
        LoopAction::SubscribeSessionNotifications { window } => Some(window),
        LoopAction::ReportWindow { window } => Some(window),
        LoopAction::UnsubscribeSessionNotifications { window } => Some(window),
        LoopAction::DestroyWindow { window } => Some(window),
        _ => None,
    }
}

/// Feeds `events` one by one to the loop in state `state`, appending the
/// actions of each step to `actions`.
pub open spec fn run_from(state: LoopState, actions: Seq<LoopAction>, events: Seq<LoopEvent>) -> (
    LoopState,
    Seq<LoopAction>,
)
    decreases events.len(),
{
    if events.len() == 0 {
        (state, actions)
    } else {
        let next = spec_step(state, events[0]);
        run_from(next.0, actions + next.1, events.drop_first())
    }
}

/// The state reached, and every action asked for, when the loop is started
/// and then fed `events`.
pub open spec fn spec_run(events: Seq<LoopEvent>) -> (LoopState, Seq<LoopAction>) {
    run_from(spec_start().0, spec_start().1, events)
}

/// All actions that work on a window work on one and the same nonzero window.
pub open spec fn one_window(actions: Seq<LoopAction>) -> bool {
    forall|i: int, j: int|
        #![trigger actions[i], actions[j]]
        0 <= i < actions.len() && 0 <= j < actions.len() && action_window(actions[i]) is Some
            && action_window(actions[j]) is Some ==> action_window(actions[i]) == action_window(
            actions[j],
        ) && action_window(actions[i])->0 != 0
}

/// Every `FetchMessage` comes after some action for which `found` holds.
pub open spec fn fetches_follow(actions: Seq<LoopAction>, found: spec_fn(LoopAction) -> bool) -> bool {
    forall|i: int|
        #![trigger actions[i]]
        0 <= i < actions.len() && actions[i] is FetchMessage ==> exists|j: int|
            0 <= j < i && #[trigger] found(actions[j])
}

pub open spec fn is_report(action: LoopAction) -> bool {
    action is ReportWindow
}

pub open spec fn is_install(action: LoopAction) -> bool {
    action is InstallEventSender
}

spec fn names_only(actions: Seq<LoopAction>, window: isize) -> bool {
    forall|i: int|
        #![trigger actions[i]]
        0 <= i < actions.len() && action_window(actions[i]) is Some ==> action_window(actions[i])
            == Some(window)
}

spec fn names_none(actions: Seq<LoopAction>) -> bool {
    forall|i: int| #![trigger actions[i]] 0 <= i < actions.len() ==> action_window(actions[i]) is None
}

spec fn no_fetch(actions: Seq<LoopAction>) -> bool {
    forall|i: int| #![trigger actions[i]] 0 <= i < actions.len() ==> !(actions[i] is FetchMessage)
}

spec fn has(actions: Seq<LoopAction>, found: spec_fn(LoopAction) -> bool) -> bool {
    exists|j: int| 0 <= j < actions.len() && #[trigger] found(actions[j])
}

spec fn handed_over(actions: Seq<LoopAction>) -> bool {
    &&& has(actions, |a: LoopAction| is_report(a))
    &&& has(actions, |a: LoopAction| is_install(a))
    &&& fetches_follow(actions, |a: LoopAction| is_report(a))
    &&& fetches_follow(actions, |a: LoopAction| is_install(a))
}

/// What holds of the state and of all actions asked for so far, on every run.
spec fn inv(state: LoopState, actions: Seq<LoopAction>) -> bool {
    match state {
        LoopState::CreatingWindow => names_none(actions) && no_fetch(actions),
        LoopState::Failed => names_none(actions) && no_fetch(actions),
        LoopState::Subscribing { window } => {
            &&& window != 0
            &&& names_only(actions, window)
            &&& no_fetch(actions)
            &&& actions.contains(LoopAction::SubscribeSessionNotifications { window })
        },
        LoopState::Running { window } => {
            &&& window != 0
            &&& names_only(actions, window)
            &&& actions.contains(LoopAction::SubscribeSessionNotifications { window })
            &&& handed_over(actions)
        },
        LoopState::Stopped => {
            let n = actions.len();
            &&& n >= 2
            &&& actions[n - 1] is DestroyWindow
            &&& actions[n - 1]->DestroyWindow_window != 0
            &&& names_only(actions, actions[n - 1]->DestroyWindow_window)
            &&& actions[n - 2] == LoopAction::UnsubscribeSessionNotifications {
                window: actions[n - 1]->DestroyWindow_window,
            }
            &&& actions.contains(
                LoopAction::SubscribeSessionNotifications {
                    window: actions[n - 1]->DestroyWindow_window,
                },
            )
            &&& fetches_follow(actions, |a: LoopAction| is_report(a))
            &&& fetches_follow(actions, |a: LoopAction| is_install(a))
        },
    }
}

proof fn lemma_names_only_concat(a: Seq<LoopAction>, b: Seq<LoopAction>, window: isize)
    requires
        names_only(a, window),
        names_only(b, window),
    ensures
        names_only(a + b, window),
{
    assert forall|i: int|
        #![trigger (a + b)[i]]
        0 <= i < (a + b).len() && action_window((a + b)[i]) is Some implies action_window(
            (a + b)[i],
        ) == Some(window) by {
        if i < a.len() {
            assert((a + b)[i] == a[i]);
        } else {
            assert((a + b)[i] == b[i - a.len()]);
        }
    }
}

proof fn lemma_contains_concat(a: Seq<LoopAction>, b: Seq<LoopAction>, x: LoopAction)
    requires
        a.contains(x),
    ensures
        (a + b).contains(x),
{
    let j = choose|j: int| 0 <= j < a.len() && a[j] == x;
    assert((a + b)[j] == a[j]);
}

proof fn lemma_has_concat(a: Seq<LoopAction>, b: Seq<LoopAction>, found: spec_fn(LoopAction) -> bool)
    requires
        has(a, found),
    ensures
        has(a + b, found),
{
    let j = choose|j: int| 0 <= j < a.len() && #[trigger] found(a[j]);
    assert((a + b)[j] == a[j]);
}

proof fn lemma_no_fetch_concat(a: Seq<LoopAction>, b: Seq<LoopAction>)
    requires
        no_fetch(a),
        no_fetch(b),
    ensures
        no_fetch(a + b),
{
    assert forall|i: int| #![trigger (a + b)[i]] 0 <= i < (a + b).len() implies !((a
        + b)[i] is FetchMessage) by {
        if i < a.len() {
            assert((a + b)[i] == a[i]);
        } else {
            assert((a + b)[i] == b[i - a.len()]);
        }
    }
}

/// Appending `b` keeps every fetch after a `found` action, when each fetch in
/// `b` has one before it in `b`, or `a` already holds one.
proof fn lemma_follow_concat(a: Seq<LoopAction>, b: Seq<LoopAction>, found: spec_fn(LoopAction) -> bool)
    requires
        fetches_follow(a, found),
        has(a, found) || fetches_follow(b, found),
    ensures
        fetches_follow(a + b, found),
{
    let ab = a + b;
    assert forall|i: int| #![trigger ab[i]] 0 <= i < ab.len() && ab[i] is FetchMessage implies exists|j: int|
        0 <= j < i && #[trigger] found(ab[j]) by {
        if i < a.len() {
            assert(ab[i] == a[i]);
            let j = choose|j: int| 0 <= j < i && #[trigger] found(a[j]);
            assert(ab[j] == a[j]);
        } else {
            let k = i - a.len();
            assert(ab[i] == b[k]);
            if has(a, found) {
                let j = choose|j: int| 0 <= j < a.len() && #[trigger] found(a[j]);
                assert(ab[j] == a[j]);
            } else {
                let j = choose|j: int| 0 <= j < k && #[trigger] found(b[j]);
                assert(ab[a.len() + j] == b[j]);
            }
        }
    }
}

/// One step of the loop keeps the invariant.
proof fn lemma_step_keeps_inv(state: LoopState, actions: Seq<LoopAction>, event: LoopEvent)
    requires
        inv(state, actions),
    ensures
        inv(spec_step(state, event).0, actions + spec_step(state, event).1),
{
    let next = spec_step(state, event);
    let all = actions + next.1;
    if next.1.len() == 0 {
        assert(all =~= actions);
    } else {
        match state {
            LoopState::CreatingWindow => {
                let window = event->WindowCreated_window;
                assert(names_only(actions, window));
                assert(names_only(next.1, window));
                lemma_names_only_concat(actions, next.1, window);
                lemma_no_fetch_concat(actions, next.1);
                assert(all[actions.len() as int] == next.1[0]);
            },
            LoopState::Subscribing { window } => {
                let found_report = |a: LoopAction| is_report(a);
                let found_install = |a: LoopAction| is_install(a);
                assert(names_only(next.1, window));
                lemma_names_only_concat(actions, next.1, window);
                lemma_contains_concat(
                    actions,
                    next.1,
                    LoopAction::SubscribeSessionNotifications { window },
                );
                let n = next.1.len() as int;
                assert(found_report(next.1[n - 3]));
                assert(found_install(next.1[n - 2]));
                assert(fetches_follow(actions, found_report));
                assert(fetches_follow(actions, found_install));
                assert(fetches_follow(next.1, found_report));
                assert(fetches_follow(next.1, found_install));
                lemma_follow_concat(actions, next.1, found_report);
                lemma_follow_concat(actions, next.1, found_install);
                assert(all[actions.len() + n - 3] == next.1[n - 3]);
                assert(all[actions.len() + n - 2] == next.1[n - 2]);
                assert(has(all, found_report));
                assert(has(all, found_install));
            },
            LoopState::Running { window } => {
                let found_report = |a: LoopAction| is_report(a);
                let found_install = |a: LoopAction| is_install(a);
                assert(names_only(next.1, window));
                lemma_names_only_concat(actions, next.1, window);
                lemma_contains_concat(
                    actions,
                    next.1,
                    LoopAction::SubscribeSessionNotifications { window },
                );
                lemma_follow_concat(actions, next.1, found_report);
                lemma_follow_concat(actions, next.1, found_install);
                if next.0 is Running {
                    lemma_has_concat(actions, next.1, found_report);
                    lemma_has_concat(actions, next.1, found_install);
                } else {
                    let n = all.len() as int;
                    assert(all[n - 1] == next.1[1]);
                    assert(all[n - 2] == next.1[0]);
                }
            },
            _ => {},
        }
    }
}

/// Running the loop on `events` from a state that meets the invariant ends
/// in one that meets it.
proof fn lemma_run_keeps_inv(state: LoopState, actions: Seq<LoopAction>, events: Seq<LoopEvent>)
    requires
        inv(state, actions),
    ensures
        inv(run_from(state, actions, events).0, run_from(state, actions, events).1),
    decreases events.len(),
{
    if events.len() > 0 {
        lemma_step_keeps_inv(state, actions, events[0]);
        let next = spec_step(state, events[0]);
        lemma_run_keeps_inv(next.0, actions + next.1, events.drop_first());
    }
}

proof fn lemma_inv_of_run(events: Seq<LoopEvent>)
    ensures
        inv(spec_run(events).0, spec_run(events).1),
{
    let start = spec_start();
    assert(start.1[0] == LoopAction::RegisterWindowClass);
    assert(start.1[1] == LoopAction::CreateWindow);
    assert(inv(start.0, start.1));
    lemma_run_keeps_inv(start.0, start.1, events);
}

/// Once the loop has stopped or failed it stays so and asks for nothing more.
pub proof fn lemma_finished_loop_stays(state: LoopState, event: LoopEvent)
    requires
        is_finished(state),
    ensures
        spec_step(state, event) == (state, Seq::<LoopAction>::empty()),
{
}

/// On every run, all the actions that work on a window work on the same
/// window, and that window's handle is not zero.
pub proof fn lemma_run_uses_one_window(events: Seq<LoopEvent>)
    ensures
        one_window(spec_run(events).1),
{
    lemma_inv_of_run(events);
    let (state, actions) = spec_run(events);
    match state {
        LoopState::Subscribing { window } => {},
        LoopState::Running { window } => {},
        LoopState::Stopped => {},
        _ => {},
    }
}

/// A loop that stopped has, as its last two actions, unregistered and then
/// destroyed the window that it had registered for session notifications.
pub proof fn lemma_stopped_loop_cleaned_up(events: Seq<LoopEvent>)
    requires
        spec_run(events).0 is Stopped,
    ensures
        ({
            let actions = spec_run(events).1;
            let n = actions.len();
            &&& n >= 2
            &&& actions[n - 1] is DestroyWindow
            &&& actions[n - 2] == LoopAction::UnsubscribeSessionNotifications {
                window: actions[n - 1]->DestroyWindow_window,
            }
            &&& actions.contains(
                LoopAction::SubscribeSessionNotifications {
                    window: actions[n - 1]->DestroyWindow_window,
                },
            )
        }),
{
    lemma_inv_of_run(events);
}

/// A loop that failed never asked for anything to be done to a window, so it
/// leaves nothing to clean up.
pub proof fn lemma_failed_loop_touched_no_window(events: Seq<LoopEvent>)
    requires
        spec_run(events).0 is Failed,
    ensures
        forall|i: int|
            #![trigger spec_run(events).1[i]]
            0 <= i < spec_run(events).1.len() ==> action_window(spec_run(events).1[i]) is None,
{
    lemma_inv_of_run(events);
}

/// No message is fetched before the window's handle has been reported to the
/// listener's owner and the event sender has been installed.
pub proof fn lemma_fetch_after_handover(events: Seq<LoopEvent>)
    ensures
        fetches_follow(spec_run(events).1, |a: LoopAction| is_report(a)),
        fetches_follow(spec_run(events).1, |a: LoopAction| is_install(a)),
{
    lemma_inv_of_run(events);
    let (state, actions) = spec_run(events);
    if state is CreatingWindow || state is Failed || state is Subscribing {
        assert(no_fetch(actions));
    }
}

/// A window whose handle is not zero is registered for session
/// notifications: creating it never fails the loop.
pub proof fn lemma_nonzero_window_is_subscribed(window: isize)
    requires
        window != 0,
    ensures
        spec_step(LoopState::CreatingWindow, LoopEvent::WindowCreated { window }) == (
            LoopState::Subscribing { window },
            seq![LoopAction::SubscribeSessionNotifications { window }],
        ),
{
}

/// The loop fails only when the created window's handle is zero.
pub proof fn lemma_fails_only_on_zero_handle(state: LoopState, event: LoopEvent)
    ensures
        spec_step(state, event).0 is Failed <==> (state is Failed || (state is CreatingWindow
            && event == (LoopEvent::WindowCreated { window: 0 }))),
{
}

/// Every nonzero `GetMessageW` result, errors included, has the message
/// dispatched and the next one fetched, on the same window.
pub proof fn lemma_nonzero_fetch_keeps_pumping(window: isize, result: i32)
    requires
        result != 0,
    ensures
        spec_step(LoopState::Running { window }, LoopEvent::MessageFetched { result }) == (
            LoopState::Running { window },
            seq![LoopAction::DispatchMessage, LoopAction::FetchMessage],
        ),
{
}

/// The loop stops only when `GetMessageW` returns zero while it runs, and then
/// unregisters and destroys its window.
pub proof fn lemma_stops_only_on_zero_result(state: LoopState, event: LoopEvent)
    ensures
        spec_step(state, event).0 is Stopped <==> (state is Stopped || (state is Running
            && event == (LoopEvent::MessageFetched { result: 0 }))),
        forall|window: isize|
            state == (LoopState::Running { window }) && event == (LoopEvent::MessageFetched {
                result: 0,
            }) ==> spec_step(state, event).1 == seq![
                LoopAction::UnsubscribeSessionNotifications { window },
                LoopAction::DestroyWindow { window },
            ],
{
}

/// A loop reports an outcome exactly once it has finished: success once
/// stopped, the window-creation error once failed, nothing while it runs.
pub proof fn lemma_outcome_only_when_finished(state: LoopState)
    ensures
        spec_outcome(state) is Some <==> is_finished(state),
        spec_outcome(state) == Some(Ok::<(), LoopError>(())) <==> state is Stopped,
        spec_outcome(state) == Some(Err::<(), LoopError>(LoopError::WindowCreationFailed))
            <==> state is Failed,
        state is CreatingWindow || state is Subscribing || state is Running ==> spec_outcome(
            state,
        ) is None,
{
}

/// Once the registration for session notifications has been answered, the
/// loop runs on the same window: a failure is only warned about, and then in
/// either case the handle is reported, the event sender installed and the
/// first message fetched.
pub proof fn lemma_subscription_answer_starts_pumping(window: isize, succeeded: bool)
    ensures
        spec_step(LoopState::Subscribing { window }, LoopEvent::SubscriptionResult { succeeded })
            .0 == (LoopState::Running { window }),
        spec_step(LoopState::Subscribing { window }, LoopEvent::SubscriptionResult { succeeded })
            .1 == (if succeeded {
            Seq::<LoopAction>::empty()
        } else {
            seq![LoopAction::WarnSubscriptionFailed]
        }) + seq![
            LoopAction::ReportWindow { window },
            LoopAction::InstallEventSender,
            LoopAction::FetchMessage,
        ],
{
    let actions = spec_step(
        LoopState::Subscribing { window },
        LoopEvent::SubscriptionResult { succeeded },
    ).1;
    let tail = seq![
        LoopAction::ReportWindow { window },
        LoopAction::InstallEventSender,
        LoopAction::FetchMessage,
    ];
    if succeeded {
        assert(actions =~= Seq::<LoopAction>::empty() + tail);
    } else {
        assert(actions =~= seq![LoopAction::WarnSubscriptionFailed] + tail);
    }
}

/// An event that the current state does not wait for changes nothing and
/// asks for nothing.
pub proof fn lemma_unexpected_event_changes_nothing(state: LoopState, event: LoopEvent)
    requires
        (state is CreatingWindow && !(event is WindowCreated)) || (state is Subscribing
            && !(event is SubscriptionResult)) || (state is Running && !(event is MessageFetched)),
    ensures
        spec_step(state, event) == (state, Seq::<LoopAction>::empty()),
{
}

} // verus!
