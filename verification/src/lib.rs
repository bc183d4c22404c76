//! Decision logic of a desktop session listener: which operating-system
//! notifications mean that the user is back at an unlocked session, how the
//! hidden Win32 message window is driven through its life, and which
//! notifications are observed on macOS.

pub mod event;
pub mod loop_laws;
pub mod menu_bar;
pub mod message_loop;
pub mod observed;
pub mod win_message;

pub use event::SessionEvent;
pub use menu_bar::level_above_menu_bar;
pub use message_loop::{
    quit_message, start, step, LoopAction, LoopError, LoopEvent, LoopState, PostedMessage,
};
pub use observed::{observed_notifications, NotificationCenter, Subscription};
pub use win_message::{decode_message, event_for_message, SystemNotice};
