use quickmute::tray::{
    context_menu, feedback_chime, icon_color, label_text, tip_field, tip_text, Chime, MenuEntry,
    MenuLabel, COLOR_LIVE, COLOR_MUTED, ID_TRAY_EXIT, ID_TRAY_TOGGLE, TIP_CAPACITY,
};

#[test]
fn icon_is_red_when_muted_and_green_when_live() {
    assert_eq!(icon_color(true), 0x004444EF);
    assert_eq!(icon_color(false), 0x005EC522);
    assert_eq!(COLOR_MUTED, 0x004444EF);
    assert_eq!(COLOR_LIVE, 0x005EC522);
}

#[test]
fn tip_texts() {
    assert_eq!(tip_text(true), "QuickMute: MUTED [Button to unmute]");
    assert_eq!(tip_text(false), "QuickMute: LIVE [Button to mute]");
}

#[test]
fn tip_field_holds_text_and_terminator() {
    let wide: Vec<u16> = tip_text(true).encode_utf16().collect();
    let field = tip_field(&wide);
    assert_eq!(field.len(), TIP_CAPACITY);
    assert_eq!(&field[..wide.len()], &wide[..]);
    assert!(field[wide.len()..].iter().all(|&u| u == 0));
}

#[test]
fn tip_field_cuts_long_text() {
    let wide: Vec<u16> = vec![0x41; 300];
    let field = tip_field(&wide);
    assert_eq!(field.len(), 128);
    assert!(field[..127].iter().all(|&u| u == 0x41));
    assert_eq!(field[127], 0);
}

#[test]
fn menu_offers_unmute_while_muted() {
    assert_eq!(
        context_menu(true),
        vec![
            MenuEntry::Command(ID_TRAY_TOGGLE, MenuLabel::Unmute),
            MenuEntry::Separator,
            MenuEntry::Command(ID_TRAY_EXIT, MenuLabel::Exit),
        ]
    );
}

#[test]
fn menu_offers_mute_while_live() {
    assert_eq!(context_menu(false)[0], MenuEntry::Command(1001, MenuLabel::Mute));
    assert_eq!(context_menu(false)[2], MenuEntry::Command(1002, MenuLabel::Exit));
}

#[test]
fn menu_labels() {
    assert_eq!(label_text(MenuLabel::Mute), "Mute Microphone");
    assert_eq!(label_text(MenuLabel::Unmute), "Unmute Microphone");
    assert_eq!(label_text(MenuLabel::Exit), "Exit QuickMute");
}

#[test]
fn chime_follows_new_state() {
    assert_eq!(feedback_chime(true), Chime::Muted);
    assert_eq!(feedback_chime(false), Chime::Unmuted);
}
