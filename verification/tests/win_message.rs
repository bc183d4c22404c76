use session_watch::win_message::{
    PBT_APMRESUMEAUTOMATIC, PBT_APMRESUMESUSPEND, PBT_APMSUSPEND, WM_POWERBROADCAST, WM_QUIT,
    WM_WTSSESSION_CHANGE, WTS_SESSION_LOCK, WTS_SESSION_UNLOCK,
};
use windows::Win32::UI::WindowsAndMessaging as wm;
use session_watch::{decode_message, event_for_message, SessionEvent, SystemNotice};

#[test]
fn message_numbers_match_the_windows_crate() {
    assert_eq!(WM_WTSSESSION_CHANGE, wm::WM_WTSSESSION_CHANGE);
    assert_eq!(WM_POWERBROADCAST, wm::WM_POWERBROADCAST);
    assert_eq!(WM_QUIT, wm::WM_QUIT);
    assert_eq!(WTS_SESSION_LOCK, wm::WTS_SESSION_LOCK);
    assert_eq!(WTS_SESSION_UNLOCK, wm::WTS_SESSION_UNLOCK);
    assert_eq!(PBT_APMSUSPEND, wm::PBT_APMSUSPEND);
    assert_eq!(PBT_APMRESUMESUSPEND, wm::PBT_APMRESUMESUSPEND);
    assert_eq!(PBT_APMRESUMEAUTOMATIC, wm::PBT_APMRESUMEAUTOMATIC);
}

#[test]
fn session_unlock_emits_unlocked() {
    assert_eq!(decode_message(0x02B1, 8), SystemNotice::SessionUnlocked);
    assert_eq!(event_for_message(0x02B1, 8), Some(SessionEvent::Unlocked));
}

#[test]
fn session_lock_emits_nothing() {
    assert_eq!(decode_message(0x02B1, 7), SystemNotice::SessionLocked);
    assert_eq!(event_for_message(0x02B1, 7), None);
}

#[test]
fn both_resumes_emit_unlocked() {
    assert_eq!(decode_message(0x0218, 0x12), SystemNotice::Resumed);
    assert_eq!(decode_message(0x0218, 7), SystemNotice::Resumed);
    assert_eq!(event_for_message(0x0218, 0x12), Some(SessionEvent::Unlocked));
    assert_eq!(event_for_message(0x0218, 7), Some(SessionEvent::Unlocked));
}

#[test]
fn suspend_emits_nothing() {
    assert_eq!(decode_message(0x0218, 4), SystemNotice::Suspending);
    assert_eq!(event_for_message(0x0218, 4), None);
}

#[test]
fn other_codes_and_messages_emit_nothing() {
    assert_eq!(decode_message(0x02B1, 1), SystemNotice::Other);
    assert_eq!(decode_message(0x0218, 0xA), SystemNotice::Other);
    assert_eq!(decode_message(0x0001, 8), SystemNotice::Other);
    assert_eq!(decode_message(0x0012, 0), SystemNotice::Other);
    assert_eq!(event_for_message(0x0001, 8), None);
    assert_eq!(event_for_message(0x02B1, 0), None);
}

#[test]
fn code_is_the_low_32_bits_of_wparam() {
    if usize::BITS == 64 {
        let wide: u64 = 0x1_0000_0008;
        let wparam = wide as usize;
        assert_eq!(decode_message(0x02B1, wparam), SystemNotice::SessionUnlocked);
        let wide_lock: u64 = 0xFFFF_FFFF_0000_0007;
        assert_eq!(decode_message(0x02B1, wide_lock as usize), SystemNotice::SessionLocked);
    }
}

#[test]
fn notice_event_table() {
    assert_eq!(SystemNotice::SessionUnlocked.session_event(), Some(SessionEvent::Unlocked));
    assert_eq!(SystemNotice::Resumed.session_event(), Some(SessionEvent::Unlocked));
    assert_eq!(SystemNotice::SessionLocked.session_event(), None);
    assert_eq!(SystemNotice::Suspending.session_event(), None);
    assert_eq!(SystemNotice::Other.session_event(), None);
}
