use vstd::prelude::*;

use crate::win_message::WM_QUIT;

verus! {

/// Where the session-listener thread stands in the life of its hidden
/// message window.
#[derive(Clone, Copy, Debug, PartialEq, Eq, Structural)]
pub enum LoopState {
    /// The window class is registered and the window is being created.
    CreatingWindow,
    /// The window exists; registration for session notifications was asked.
    Subscribing { window: isize },
    /// The window's messages are being pumped.
    Running { window: isize },
    /// The loop ended after the window was unregistered and destroyed.
    Stopped,
    /// No window could be created; nothing was registered.
    Failed,
}

/// What the operating system answered to the last action asked of it.
#[derive(Clone, Copy, Debug, PartialEq, Eq, Structural)]
pub enum LoopEvent {
    /// `CreateWindowExW` returned this handle (zero on failure).
    WindowCreated { window: isize },
    /// `WTSRegisterSessionNotification` succeeded or failed.
    SubscriptionResult { succeeded: bool },
    /// `GetMessageW` returned this value.
    MessageFetched { result: i32 },
}

/// One piece of outside work that the thread running the loop carries out.
#[derive(Clone, Copy, Debug, PartialEq, Eq, Structural)]
pub enum LoopAction {
    /// Register the listener's window class.
    RegisterWindowClass,
    /// Create the hidden listener window.
    CreateWindow,
    /// Register the window for notifications on this session.
    SubscribeSessionNotifications { window: isize },
    /// Warn that the registration for session notifications failed.
    WarnSubscriptionFailed,
    /// Hand the window's handle to the thread that owns the listener.
    ReportWindow { window: isize },
    /// Make the event sender reachable from the window procedure.
    InstallEventSender,
    /// Wait for the next window message (`GetMessageW`).
    FetchMessage,
    /// Translate and dispatch the message just fetched.
    DispatchMessage,
    /// Unregister the window from session notifications.
    UnsubscribeSessionNotifications { window: isize },
    /// Destroy the window.
    DestroyWindow { window: isize },
}

/// Why the message loop could not run.
#[derive(Clone, Copy, Debug, PartialEq, Eq, Structural)]
pub enum LoopError {
    /// The hidden listener window could not be created.
    WindowCreationFailed,
}

/// The state and actions with which the loop begins.
pub open spec fn spec_start() -> (LoopState, Seq<LoopAction>) {
    (LoopState::CreatingWindow, seq![LoopAction::RegisterWindowClass, LoopAction::CreateWindow])
}

/// The transition table of the loop: the next state and the actions to carry
/// out when `event` comes in state `state`. An event that the state does not
/// wait for changes nothing.
pub open spec fn spec_step(state: LoopState, event: LoopEvent) -> (LoopState, Seq<LoopAction>) {
    match state {
        LoopState::CreatingWindow => match event {
            LoopEvent::WindowCreated { window } => if window == 0 {
                (LoopState::Failed, Seq::empty())
            } else {
                (
                    LoopState::Subscribing { window },
                    seq![LoopAction::SubscribeSessionNotifications { window }],
                )
            },
            _ => (state, Seq::empty()),
        },
        LoopState::Subscribing { window } => match event {
            LoopEvent::SubscriptionResult { succeeded } => (
                LoopState::Running { window },
                if succeeded {
                    seq![
                        LoopAction::ReportWindow { window },
                        LoopAction::InstallEventSender,
                        LoopAction::FetchMessage,
                    ]
                } else {
                    seq![
                        LoopAction::WarnSubscriptionFailed,
                        LoopAction::ReportWindow { window },
                        LoopAction::InstallEventSender,
                        LoopAction::FetchMessage,
                    ]
                },
            ),
            _ => (state, Seq::empty()),
        },
        LoopState::Running { window } => match event {
            LoopEvent::MessageFetched { result } => if result != 0 {
                (state, seq![LoopAction::DispatchMessage, LoopAction::FetchMessage])
            } else {
                (
                    LoopState::Stopped,
                    seq![
                        LoopAction::UnsubscribeSessionNotifications { window },
                        LoopAction::DestroyWindow { window },
                    ],
                )
            },
            _ => (state, Seq::empty()),
        },
        LoopState::Stopped => (state, Seq::empty()),
        LoopState::Failed => (state, Seq::empty()),
    }
}

/// Whether the loop has ended, one way or the other.
pub open spec fn is_finished(state: LoopState) -> bool {
    state is Stopped || state is Failed
}

/// How a finished loop ended; `None` while it runs.
pub open spec fn spec_outcome(state: LoopState) -> Option<Result<(), LoopError>> {
    match state {
        LoopState::Stopped => Some(Ok(())),
        LoopState::Failed => Some(Err(LoopError::WindowCreationFailed)),
        _ => None,
    }
}

/// Starts the loop: registers the window class and creates the window.
pub fn start() -> (res: (LoopState, Vec<LoopAction>))
    ensures
        (res.0, res.1@) == spec_start(),
        res.0 == LoopState::CreatingWindow,
        res.1@ == seq![LoopAction::RegisterWindowClass, LoopAction::CreateWindow],
{
    (LoopState::CreatingWindow, vec![LoopAction::RegisterWindowClass, LoopAction::CreateWindow])
}

/// Advances the loop on `event`: gives the next state and the outside work to
/// do, in order. A zero window handle fails the loop; once the window exists
/// it is registered for session notifications (a failed registration is only
/// warned about), its handle is reported and messages are pumped until
/// `GetMessageW` returns zero, after which the window is unregistered and
/// destroyed.
pub fn step(state: LoopState, event: LoopEvent) -> (res: (LoopState, Vec<LoopAction>))
    ensures
        (res.0, res.1@) == spec_step(state, event),
        forall|w: isize|
            w != 0 && state == LoopState::CreatingWindow && event == (LoopEvent::WindowCreated {
                window: w,
            }) ==> res.0 == (LoopState::Subscribing { window: w }) && res.1@ == seq![
                LoopAction::SubscribeSessionNotifications { window: w },
            ],
        state == LoopState::CreatingWindow && event == (LoopEvent::WindowCreated { window: 0 })
            ==> res.0 == LoopState::Failed && res.1@.len() == 0,
        res.0 == LoopState::Failed ==> state == LoopState::Failed || (state
            == LoopState::CreatingWindow && event == (LoopEvent::WindowCreated { window: 0 })),
        forall|w: isize, r: i32|
            r != 0 && state == (LoopState::Running { window: w }) && event == (
            LoopEvent::MessageFetched { result: r }) ==> res.0 == (LoopState::Running {
                window: w,
            }) && res.1@ == seq![LoopAction::DispatchMessage, LoopAction::FetchMessage],
        forall|w: isize|
            state == (LoopState::Running { window: w }) && event == (LoopEvent::MessageFetched {
                result: 0,
            }) ==> res.0 == LoopState::Stopped && res.1@ == seq![
                LoopAction::UnsubscribeSessionNotifications { window: w },
                LoopAction::DestroyWindow { window: w },
            ],
        res.0 == LoopState::Stopped ==> state == LoopState::Stopped || (state is Running
            && event == (LoopEvent::MessageFetched { result: 0 })),
        forall|w: isize, ok: bool|
            state == (LoopState::Subscribing { window: w }) && event == (
            LoopEvent::SubscriptionResult { succeeded: ok }) ==> res.0 == (LoopState::Running {
                window: w,
            }) && res.1@ == (if ok {
                Seq::<LoopAction>::empty()
            } else {
                seq![LoopAction::WarnSubscriptionFailed]
            }) + seq![
                LoopAction::ReportWindow { window: w },
                LoopAction::InstallEventSender,
                LoopAction::FetchMessage,
            ],
        (state is Stopped || state is Failed || (state is CreatingWindow && !(event is WindowCreated))
            || (state is Subscribing && !(event is SubscriptionResult)) || (state is Running
            && !(event is MessageFetched))) ==> res.0 == state && res.1@.len() == 0,
{
    match state {
        LoopState::CreatingWindow => match event {
            LoopEvent::WindowCreated { window } => if window == 0 {
                (LoopState::Failed, Vec::new())
            } else {
                (
                    LoopState::Subscribing { window },
                    vec![LoopAction::SubscribeSessionNotifications { window }],
                )
            },
            _ => (state, Vec::new()),
        },
        LoopState::Subscribing { window } => match event {
            LoopEvent::SubscriptionResult { succeeded } => {
                let mut actions: Vec<LoopAction> = Vec::new();
                if !succeeded {
                    actions.push(LoopAction::WarnSubscriptionFailed);
                }
                actions.push(LoopAction::ReportWindow { window });
                actions.push(LoopAction::InstallEventSender);
                actions.push(LoopAction::FetchMessage);
                (LoopState::Running { window }, actions)
            },
            _ => (state, Vec::new()),
        },
        LoopState::Running { window } => match event {
            LoopEvent::MessageFetched { result } => if result != 0 {
                (state, vec![LoopAction::DispatchMessage, LoopAction::FetchMessage])
            } else {
                (
                    LoopState::Stopped,
                    vec![
                        LoopAction::UnsubscribeSessionNotifications { window },
                        LoopAction::DestroyWindow { window },
                    ],
                )
            },
            _ => (state, Vec::new()),
        },
        LoopState::Stopped => (state, Vec::new()),
        LoopState::Failed => (state, Vec::new()),
    }
}

impl LoopState {
    /// How the loop ended: `Ok` once stopped, the error once failed, `None`
    /// while it still runs.
    pub fn outcome(&self) -> (res: Option<Result<(), LoopError>>)
        ensures
            res == spec_outcome(*self),
            res is Some <==> (*self == LoopState::Stopped || *self == LoopState::Failed),
            res == Some(Ok::<(), LoopError>(())) <==> *self == LoopState::Stopped,
            res == Some(Err::<(), LoopError>(LoopError::WindowCreationFailed)) <==> *self
                == LoopState::Failed,
    {
        match self {
            LoopState::Stopped => Some(Ok(())),
            LoopState::Failed => Some(Err(LoopError::WindowCreationFailed)),
            _ => None,
        }
    }
}

impl LoopError {
    /// The message that reports this error.
    pub fn describe(&self) -> (text: String)
        ensures
            text@ == "Failed to create session listener window."@,
    {
        match self {
            LoopError::WindowCreationFailed => "Failed to create session listener window.".to_owned(),
        }
    }
}

/// A message to post to a window with `PostMessageW`.
#[derive(Clone, Copy, Debug, PartialEq, Eq, Structural)]
pub struct PostedMessage {
    pub window: isize,
    pub message: u32,
    pub wparam: usize,
    pub lparam: isize,
}

/// The message that shuts the loop down when the listener goes away:
/// `WM_QUIT` with zero parameters to the listener's window, if its handle is
/// known; nothing otherwise.
pub fn quit_message(window_handle: Option<isize>) -> (res: Option<PostedMessage>)
    ensures
        res is Some <==> window_handle is Some,
        window_handle matches Some(w) ==> res == Some(
            PostedMessage { window: w, message: WM_QUIT, wparam: 0, lparam: 0 },
        ),
{
    match window_handle {
        Some(window) => Some(PostedMessage { window, message: WM_QUIT, wparam: 0, lparam: 0 }),
        None => None,
    }
}

} // verus!
