use session_watch::{level_above_menu_bar, observed_notifications, NotificationCenter};

#[test]
fn observes_the_four_unlock_notifications() {
    let subs = observed_notifications();
    let got: Vec<(NotificationCenter, &str)> =
        subs.iter().map(|s| (s.center, s.name.as_str())).collect();
    assert_eq!(
        got,
        vec![
            (NotificationCenter::Workspace, "NSWorkspaceDidWakeNotification"),
            (NotificationCenter::Workspace, "NSWorkspaceScreensDidWakeNotification"),
            (NotificationCenter::Workspace, "NSWorkspaceSessionDidBecomeActiveNotification"),
            (NotificationCenter::Distributed, "com.apple.screenIsUnlocked"),
        ]
    );
}

#[test]
fn observed_names_are_c_strings() {
    for sub in observed_notifications() {
        assert!(!sub.name.contains('\0'));
        assert!(!sub.name.is_empty());
    }
}

#[test]
fn menu_bar_level_is_one_above_main_menu() {
    assert_eq!(level_above_menu_bar(24), 25);
    assert_eq!(level_above_menu_bar(i32::MAX), 2147483648);
    assert_eq!(level_above_menu_bar(-1), 0);
}
