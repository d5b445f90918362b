//! What the tray shows: the icon's colour, its tip text, the context menu, and
//! the chime played on a change of the mute state.
use vstd::prelude::*;

verus! {

/// The window message that the tray icon sends its mouse events with
/// (`WM_APP + 1`).
pub const WM_TRAYICON: u32 = 0x8001;

/// The command id of the menu item that toggles the mute state.
pub const ID_TRAY_TOGGLE: usize = 1001;

/// The command id of the menu item that ends the program.
pub const ID_TRAY_EXIT: usize = 1002;

/// The id of the program's one tray icon.
pub const TRAY_ICON_ID: u32 = 1;

/// The number of UTF-16 units in the tray's tip field, its terminator included.
pub const TIP_CAPACITY: usize = 128;

/// The icon colour while muted: red (0xEF, 0x44, 0x44), as a `COLORREF`.
pub const COLOR_MUTED: u32 = 0x004444EF;

/// The icon colour while live: green (0x22, 0xC5, 0x5E), as a `COLORREF`.
pub const COLOR_LIVE: u32 = 0x005EC522;

/// The colour of the tray icon for a mute state.
pub fn icon_color(is_muted: bool) -> (r: u32)
    ensures
        r == (if is_muted {
            COLOR_MUTED
        } else {
            COLOR_LIVE
        }),
{
    if is_muted {
        COLOR_MUTED
    } else {
        COLOR_LIVE
    }
}

/// The tip text of the tray icon for a mute state.
pub fn tip_text(is_muted: bool) -> (r: &'static str)
    ensures
        is_muted ==> r@ == "QuickMute: MUTED [Button to unmute]"@,
        !is_muted ==> r@ == "QuickMute: LIVE [Button to mute]"@,
{
    if is_muted {
        "QuickMute: MUTED [Button to unmute]"
    } else {
        "QuickMute: LIVE [Button to mute]"
    }
}

/// The tip field for a tip text in UTF-16: the text, cut to leave room for the
/// terminator, then zeros to the field's end.
pub fn tip_field(text: &[u16]) -> (r: Vec<u16>)
    ensures
        r@.len() == TIP_CAPACITY,
        r@[TIP_CAPACITY - 1] == 0,
        forall|i: int|
            0 <= i < TIP_CAPACITY ==> #[trigger] r@[i] == (if i < text@.len() && i < TIP_CAPACITY
                - 1 {
                text@[i]
            } else {
                0u16
            }),
{
    let mut r: Vec<u16> = Vec::new();
    let mut i: usize = 0;
    while i < TIP_CAPACITY
        invariant
            i <= TIP_CAPACITY,
            r@.len() == i,
            forall|j: int|
                0 <= j < i ==> #[trigger] r@[j] == (if j < text@.len() && j < TIP_CAPACITY - 1 {
                    text@[j]
                } else {
                    0u16
                }),
        decreases TIP_CAPACITY - i,
    {
        if i < text.len() && i < TIP_CAPACITY - 1 {
            r.push(text[i]);
        } else {
            r.push(0);
        }
        i = i + 1;
    }
    r
}

/// The text of a context-menu item.
#[derive(PartialEq, Eq, Structural, Clone, Copy, Debug)]
pub enum MenuLabel {
    Mute,
    Unmute,
    Exit,
}

/// The words shown for a menu label.
pub fn label_text(label: MenuLabel) -> (r: &'static str)
    ensures
        label == MenuLabel::Mute ==> r@ == "Mute Microphone"@,
        label == MenuLabel::Unmute ==> r@ == "Unmute Microphone"@,
        label == MenuLabel::Exit ==> r@ == "Exit QuickMute"@,
{
    match label {
        MenuLabel::Mute => "Mute Microphone",
        MenuLabel::Unmute => "Unmute Microphone",
        MenuLabel::Exit => "Exit QuickMute",
    }
}

/// An entry of the context menu, in the order shown.
#[derive(PartialEq, Eq, Structural, Clone, Copy, Debug)]
pub enum MenuEntry {
    Command(usize, MenuLabel),
    Separator,
}

/// The entries of the context menu for a mute state, top to bottom: the item
/// that toggles (offering to unmute while muted), a separator, and Exit.
pub open spec fn menu_for(is_muted: bool) -> Seq<MenuEntry> {
    seq![
        MenuEntry::Command(
            ID_TRAY_TOGGLE,
            if is_muted {
                MenuLabel::Unmute
            } else {
                MenuLabel::Mute
            },
        ),
        MenuEntry::Separator,
        MenuEntry::Command(ID_TRAY_EXIT, MenuLabel::Exit),
    ]
}

/// The context menu for either state has exactly three entries: one toggle
/// item (command 1001) on top, a separator in the middle, and the exit item
/// (command 1002, "Exit QuickMute") at the bottom. The toggle item offers to
/// unmute exactly while muted and to mute exactly while live, and no other
/// entry toggles.
pub proof fn menu_offers_the_opposite_state(is_muted: bool)
    ensures
        menu_for(is_muted).len() == 3,
        menu_for(is_muted)[1] == MenuEntry::Separator,
        menu_for(is_muted)[2] == MenuEntry::Command(1002, MenuLabel::Exit),
        menu_for(is_muted)[0] matches MenuEntry::Command(id, label) && id == 1001 && (label
            == MenuLabel::Unmute <==> is_muted) && (label == MenuLabel::Mute <==> !is_muted),
        forall|i: int|
            0 <= i < menu_for(is_muted).len() ==> (#[trigger] menu_for(is_muted)[i] matches MenuEntry::Command(
                id,
                label,
            ) ==> ((id == 1001 <==> i == 0) && (label == MenuLabel::Exit <==> id == 1002))),
{
}

/// The entries of the context menu for a mute state.
pub fn context_menu(is_muted: bool) -> (r: Vec<MenuEntry>)
    ensures
        r@ == menu_for(is_muted),
{
    let toggle = if is_muted {
        MenuLabel::Unmute
    } else {
        MenuLabel::Mute
    };
    let mut r: Vec<MenuEntry> = Vec::new();
    r.push(MenuEntry::Command(ID_TRAY_TOGGLE, toggle));
    r.push(MenuEntry::Separator);
    r.push(MenuEntry::Command(ID_TRAY_EXIT, MenuLabel::Exit));
    assert(r@ =~= menu_for(is_muted));
    r
}

/// The chime that announces a mute state.
#[derive(PartialEq, Eq, Structural, Clone, Copy, Debug)]
pub enum Chime {
    Muted,
    Unmuted,
}

/// The chime played on reaching a mute state.
pub fn feedback_chime(muted: bool) -> (r: Chime)
    ensures
        r == (if muted {
            Chime::Muted
        } else {
            Chime::Unmuted
        }),
{
    if muted {
        Chime::Muted
    } else {
        Chime::Unmuted
    }
}

} // verus!
