use session_watch::{
    quit_message, start, step, LoopAction, LoopError, LoopEvent, LoopState, PostedMessage,
};

fn drive(events: &[LoopEvent]) -> (LoopState, Vec<LoopAction>) {
    let (mut state, mut actions) = start();
    for event in events {
        let (next, more) = step(state, *event);
        state = next;
        actions.extend(more);
    }
    (state, actions)
}

#[test]
fn start_registers_class_then_creates_window() {
    let (state, actions) = start();
    assert_eq!(state, LoopState::CreatingWindow);
    assert_eq!(actions, vec![LoopAction::RegisterWindowClass, LoopAction::CreateWindow]);
    assert_eq!(state.outcome(), None);
}

#[test]
fn zero_window_handle_fails_without_cleanup() {
    let (state, actions) = drive(&[LoopEvent::WindowCreated { window: 0 }]);
    assert_eq!(state, LoopState::Failed);
    assert_eq!(actions, vec![LoopAction::RegisterWindowClass, LoopAction::CreateWindow]);
    assert_eq!(state.outcome(), Some(Err(LoopError::WindowCreationFailed)));
    assert_eq!(
        LoopError::WindowCreationFailed.describe(),
        "Failed to create session listener window."
    );
}

#[test]
fn full_run_pumps_then_cleans_up() {
    let (state, actions) = drive(&[
        LoopEvent::WindowCreated { window: 42 },
        LoopEvent::SubscriptionResult { succeeded: true },
        LoopEvent::MessageFetched { result: 1 },
        LoopEvent::MessageFetched { result: 0 },
    ]);
    assert_eq!(state, LoopState::Stopped);
    assert_eq!(state.outcome(), Some(Ok(())));
    assert_eq!(
        actions,
        vec![
            LoopAction::RegisterWindowClass,
            LoopAction::CreateWindow,
            LoopAction::SubscribeSessionNotifications { window: 42 },
            LoopAction::ReportWindow { window: 42 },
            LoopAction::InstallEventSender,
            LoopAction::FetchMessage,
            LoopAction::DispatchMessage,
            LoopAction::FetchMessage,
            LoopAction::UnsubscribeSessionNotifications { window: 42 },
            LoopAction::DestroyWindow { window: 42 },
        ]
    );
}

#[test]
fn failed_subscription_is_only_warned() {
    let (state, actions) = drive(&[
        LoopEvent::WindowCreated { window: 7 },
        LoopEvent::SubscriptionResult { succeeded: false },
    ]);
    assert_eq!(state, LoopState::Running { window: 7 });
    assert_eq!(
        &actions[2..],
        &[
            LoopAction::SubscribeSessionNotifications { window: 7 },
            LoopAction::WarnSubscriptionFailed,
            LoopAction::ReportWindow { window: 7 },
            LoopAction::InstallEventSender,
            LoopAction::FetchMessage,
        ]
    );
}

#[test]
fn get_message_error_keeps_pumping() {
    let (state, actions) = step(
        LoopState::Running { window: 3 },
        LoopEvent::MessageFetched { result: -1 },
    );
    assert_eq!(state, LoopState::Running { window: 3 });
    assert_eq!(actions, vec![LoopAction::DispatchMessage, LoopAction::FetchMessage]);
}

#[test]
fn finished_loop_ignores_events() {
    for state in [LoopState::Stopped, LoopState::Failed] {
        for event in [
            LoopEvent::WindowCreated { window: 1 },
            LoopEvent::SubscriptionResult { succeeded: true },
            LoopEvent::MessageFetched { result: 0 },
        ] {
            let (next, actions) = step(state, event);
            assert_eq!(next, state);
            assert!(actions.is_empty());
        }
    }
}

#[test]
fn unexpected_event_changes_nothing() {
    let (next, actions) = step(LoopState::CreatingWindow, LoopEvent::MessageFetched { result: 1 });
    assert_eq!(next, LoopState::CreatingWindow);
    assert!(actions.is_empty());
    let (next, actions) =
        step(LoopState::Subscribing { window: 9 }, LoopEvent::WindowCreated { window: 10 });
    assert_eq!(next, LoopState::Subscribing { window: 9 });
    assert!(actions.is_empty());
}

#[test]
fn every_window_action_names_the_created_window() {
    let (_, actions) = drive(&[
        LoopEvent::WindowCreated { window: -5 },
        LoopEvent::WindowCreated { window: 99 },
        LoopEvent::SubscriptionResult { succeeded: true },
        LoopEvent::MessageFetched { result: 0 },
    ]);
    for action in actions {
        match action {
            LoopAction::SubscribeSessionNotifications { window }
            | LoopAction::ReportWindow { window }
            | LoopAction::UnsubscribeSessionNotifications { window }
            | LoopAction::DestroyWindow { window } => assert_eq!(window, -5),
            _ => {}
        }
    }
}

#[test]
fn quit_goes_to_the_known_window() {
    assert_eq!(
        quit_message(Some(77)),
        Some(PostedMessage { window: 77, message: 0x0012, wparam: 0, lparam: 0 })
    );
    assert_eq!(quit_message(None), None);
}
