use vstd::prelude::*;

verus! {

/// The window level that puts a window just above the menu bar: one more
/// than the main menu's level (`NSMainMenuWindowLevel`), widened to the
/// 64-bit level that `NSWindow.setLevel` takes.
pub fn level_above_menu_bar(main_menu_level: i32) -> (level: i64)
    ensures
        level == main_menu_level + 1,
{
    main_menu_level as i64 + 1
}

} // verus!
