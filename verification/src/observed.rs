use vstd::prelude::*;

verus! {

/// A macOS notification center.
#[derive(Clone, Copy, Debug, PartialEq, Eq, Structural)]
pub enum NotificationCenter {
    /// The shared workspace's center (`NSWorkspace.notificationCenter`); its
    /// notifications are observed as sent by the shared workspace.
    Workspace,
    /// The distributed center (`NSDistributedNotificationCenter`); its
    /// notifications are observed whatever object sends them.
    Distributed,
}

/// A notification that the listener observes, and the center it comes from.
#[derive(Debug)]
pub struct Subscription {
    pub center: NotificationCenter,
    pub name: String,
}

/// The notifications observed to catch every way back to an unlocked session:
/// system wake, display wake and a fast user switch back to this session on
/// the workspace center, and dismissal of the lock screen on the distributed
/// center.
pub open spec fn spec_observed() -> Seq<(NotificationCenter, Seq<char>)> {
    seq![
        (NotificationCenter::Workspace, "NSWorkspaceDidWakeNotification"@),
        (NotificationCenter::Workspace, "NSWorkspaceScreensDidWakeNotification"@),
        (NotificationCenter::Workspace, "NSWorkspaceSessionDidBecomeActiveNotification"@),
        (NotificationCenter::Distributed, "com.apple.screenIsUnlocked"@),
    ]
}

/// Whether `name` can be handed to Objective-C as a C string: no NUL in it.
pub open spec fn c_string_safe(name: Seq<char>) -> bool {
    forall|k: int| 0 <= k < name.len() ==> name[k] != '\0'
}

/// The notifications to observe, in the order they are registered.
pub fn observed_notifications() -> (subs: Vec<Subscription>)
    ensures
        subs@.len() == spec_observed().len(),
        forall|i: int|
            0 <= i < subs@.len() ==> (#[trigger] subs@[i]).center == spec_observed()[i].0
                && subs@[i].name@ == spec_observed()[i].1,
        forall|i: int| 0 <= i < subs@.len() ==> c_string_safe(#[trigger] subs@[i].name@),
        subs@.len() == 4,
        subs@[0].center == NotificationCenter::Workspace,
        subs@[0].name@ == "NSWorkspaceDidWakeNotification"@,
        subs@[1].center == NotificationCenter::Workspace,
        subs@[1].name@ == "NSWorkspaceScreensDidWakeNotification"@,
        subs@[2].center == NotificationCenter::Workspace,
        subs@[2].name@ == "NSWorkspaceSessionDidBecomeActiveNotification"@,
        subs@[3].center == NotificationCenter::Distributed,
        subs@[3].name@ == "com.apple.screenIsUnlocked"@,
{
    proof {
        reveal_strlit("NSWorkspaceDidWakeNotification");
        reveal_strlit("NSWorkspaceScreensDidWakeNotification");
        reveal_strlit("NSWorkspaceSessionDidBecomeActiveNotification");
        reveal_strlit("com.apple.screenIsUnlocked");
    }
    assert(c_string_safe("NSWorkspaceDidWakeNotification"@));
    assert(c_string_safe("NSWorkspaceScreensDidWakeNotification"@));
    assert(c_string_safe("NSWorkspaceSessionDidBecomeActiveNotification"@));
    assert(c_string_safe("com.apple.screenIsUnlocked"@));
    let mut subs: Vec<Subscription> = Vec::new();
    subs.push(
        Subscription {
            center: NotificationCenter::Workspace,
            name: "NSWorkspaceDidWakeNotification".to_owned(),
        },
    );
    subs.push(
        Subscription {
            center: NotificationCenter::Workspace,
            name: "NSWorkspaceScreensDidWakeNotification".to_owned(),
        },
    );
    subs.push(
        Subscription {
            center: NotificationCenter::Workspace,
            name: "NSWorkspaceSessionDidBecomeActiveNotification".to_owned(),
        },
    );
    subs.push(
        Subscription {
            center: NotificationCenter::Distributed,
            name: "com.apple.screenIsUnlocked".to_owned(),
        },
    );
    subs
}

} // verus!
