use vstd::prelude::*;

use crate::event::SessionEvent;

verus! {

/// Message sent to a window registered for session notifications when the
/// state of the session changes (`WM_WTSSESSION_CHANGE`).
pub const WM_WTSSESSION_CHANGE: u32 = 0x02B1;

/// Message broadcast to windows when the power state changes (`WM_POWERBROADCAST`).
pub const WM_POWERBROADCAST: u32 = 0x0218;

/// Message that makes `GetMessageW` return zero and so ends a message loop (`WM_QUIT`).
pub const WM_QUIT: u32 = 0x0012;

/// Session-change code: the session was locked (`WTS_SESSION_LOCK`).
pub const WTS_SESSION_LOCK: u32 = 0x7;

/// Session-change code: the session was unlocked (`WTS_SESSION_UNLOCK`).
pub const WTS_SESSION_UNLOCK: u32 = 0x8;

/// Power code: the system is about to suspend (`PBT_APMSUSPEND`).
pub const PBT_APMSUSPEND: u32 = 0x4;

/// Power code: the system resumed after a suspend the user caused (`PBT_APMRESUMESUSPEND`).
pub const PBT_APMRESUMESUSPEND: u32 = 0x7;

/// Power code: the system resumed on its own (`PBT_APMRESUMEAUTOMATIC`).
pub const PBT_APMRESUMEAUTOMATIC: u32 = 0x12;

/// What a window message says about the session, as far as the listener cares.
#[derive(Clone, Copy, Debug, PartialEq, Eq, Structural)]
pub enum SystemNotice {
    /// The user unlocked the session.
    SessionUnlocked,
    /// The session was locked.
    SessionLocked,
    /// The system resumed from sleep.
    Resumed,
    /// The system is about to sleep.
    Suspending,
    /// Any other message.
    Other,
}

/// The notice carried by window message `msg` whose `wParam` holds `code`.
pub open spec fn notice_of(msg: u32, code: u32) -> SystemNotice {
    if msg == WM_WTSSESSION_CHANGE {
        if code == WTS_SESSION_UNLOCK {
            SystemNotice::SessionUnlocked
        } else if code == WTS_SESSION_LOCK {
            SystemNotice::SessionLocked
        } else {
            SystemNotice::Other
        }
    } else if msg == WM_POWERBROADCAST {
        if code == PBT_APMRESUMEAUTOMATIC || code == PBT_APMRESUMESUSPEND {
            SystemNotice::Resumed
        } else if code == PBT_APMSUSPEND {
            SystemNotice::Suspending
        } else {
            SystemNotice::Other
        }
    } else {
        SystemNotice::Other
    }
}

/// The event that a notice leads the listener to emit: an unlock or a resume
/// means the user is back; a lock, a suspend or anything else means nothing.
pub open spec fn event_of(notice: SystemNotice) -> Option<SessionEvent> {
    match notice {
        SystemNotice::SessionUnlocked => Some(SessionEvent::Unlocked),
        SystemNotice::Resumed => Some(SessionEvent::Unlocked),
        _ => None,
    }
}

/// Reads window message `msg` with parameter `wparam`. The code sits in the
/// low 32 bits of `wparam`; higher bits are ignored.
pub fn decode_message(msg: u32, wparam: usize) -> (notice: SystemNotice)
    ensures
        notice == notice_of(msg, wparam as u32),
        notice == SystemNotice::SessionUnlocked <==> (msg == WM_WTSSESSION_CHANGE && wparam as u32
            == WTS_SESSION_UNLOCK),
        notice == SystemNotice::SessionLocked <==> (msg == WM_WTSSESSION_CHANGE && wparam as u32
            == WTS_SESSION_LOCK),
        notice == SystemNotice::Resumed <==> (msg == WM_POWERBROADCAST && (wparam as u32
            == PBT_APMRESUMEAUTOMATIC || wparam as u32 == PBT_APMRESUMESUSPEND)),
        notice == SystemNotice::Suspending <==> (msg == WM_POWERBROADCAST && wparam as u32
            == PBT_APMSUSPEND),
{
    let code: u32 = wparam as u32;
    if msg == WM_WTSSESSION_CHANGE {
        if code == WTS_SESSION_UNLOCK {
            SystemNotice::SessionUnlocked
        } else if code == WTS_SESSION_LOCK {
            SystemNotice::SessionLocked
        } else {
            SystemNotice::Other
        }
    } else if msg == WM_POWERBROADCAST {
        if code == PBT_APMRESUMEAUTOMATIC || code == PBT_APMRESUMESUSPEND {
            SystemNotice::Resumed
        } else if code == PBT_APMSUSPEND {
            SystemNotice::Suspending
        } else {
            SystemNotice::Other
        }
    } else {
        SystemNotice::Other
    }
}

impl SystemNotice {
    /// The event to emit for this notice, if any.
    pub fn session_event(&self) -> (event: Option<SessionEvent>)
        ensures
            event == event_of(*self),
            event is Some <==> (*self == SystemNotice::SessionUnlocked || *self
                == SystemNotice::Resumed),
            event is Some ==> event == Some(SessionEvent::Unlocked),
    {
        match self {
            SystemNotice::SessionUnlocked => Some(SessionEvent::Unlocked),
            SystemNotice::Resumed => Some(SessionEvent::Unlocked),
            _ => None,
        }
    }
}

/// The event that the listener's window procedure emits on window message
/// `msg` with parameter `wparam`: `Unlocked` exactly for a session unlock and
/// for either kind of resume from sleep, nothing otherwise.
pub fn event_for_message(msg: u32, wparam: usize) -> (event: Option<SessionEvent>)
    ensures
        event == event_of(notice_of(msg, wparam as u32)),
        event is Some <==> (
            (msg == WM_WTSSESSION_CHANGE && wparam as u32 == WTS_SESSION_UNLOCK)
            || (msg == WM_POWERBROADCAST && (wparam as u32 == PBT_APMRESUMEAUTOMATIC
                || wparam as u32 == PBT_APMRESUMESUSPEND))
        ),
        event is Some ==> event == Some(SessionEvent::Unlocked),
{
    let notice = decode_message(msg, wparam);
    notice.session_event()
}

/// Each notice comes from exactly one message and set of codes: a lock only
/// from `WTS_SESSION_LOCK`, a suspend only from `PBT_APMSUSPEND`, an unlock
/// only from `WTS_SESSION_UNLOCK`, a resume only from either resume code; any
/// other code, under any message, is `Other`.
pub proof fn lemma_notice_codes(msg: u32, code: u32)
    ensures
        notice_of(msg, code) == SystemNotice::SessionUnlocked <==> (msg == WM_WTSSESSION_CHANGE
            && code == WTS_SESSION_UNLOCK),
        notice_of(msg, code) == SystemNotice::SessionLocked <==> (msg == WM_WTSSESSION_CHANGE
            && code == WTS_SESSION_LOCK),
        notice_of(msg, code) == SystemNotice::Resumed <==> (msg == WM_POWERBROADCAST && (code
            == PBT_APMRESUMEAUTOMATIC || code == PBT_APMRESUMESUSPEND)),
        notice_of(msg, code) == SystemNotice::Suspending <==> (msg == WM_POWERBROADCAST && code
            == PBT_APMSUSPEND),
        notice_of(msg, code) == SystemNotice::Other <==> !((msg == WM_WTSSESSION_CHANGE && (code
            == WTS_SESSION_UNLOCK || code == WTS_SESSION_LOCK)) || (msg == WM_POWERBROADCAST && (
        code == PBT_APMRESUMEAUTOMATIC || code == PBT_APMRESUMESUSPEND || code == PBT_APMSUSPEND))),
{
}

/// The listener emits `Unlocked` exactly for an unlock or a resume, and
/// nothing for every other notice.
pub proof fn lemma_event_only_for_unlock_or_resume(notice: SystemNotice)
    ensures
        event_of(notice) is Some <==> (notice == SystemNotice::SessionUnlocked || notice
            == SystemNotice::Resumed),
        event_of(notice) is Some ==> event_of(notice) == Some(SessionEvent::Unlocked),
{
}

} // verus!
