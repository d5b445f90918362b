use quickmute::hotkey::{
    default_config, hook_action, hotkey_bindings, hotkeys_from_config, parse_hotkeys, HookAction,
    DEFAULT_HOTKEY, VK_F13, VK_HOME,
};

fn chars(s: &str) -> Vec<char> {
    s.chars().collect()
}

#[test]
fn parses_single_key() {
    assert_eq!(parse_hotkeys(&chars("hotkey = F13")), vec![0x7C]);
}

#[test]
fn parses_several_keys_in_order() {
    assert_eq!(parse_hotkeys(&chars("hotkey = F13, HOME, f24")), vec![0x7C, 0x24, 0x87]);
}

#[test]
fn all_supported_names() {
    let text = "hotkey=F13,HOME,F14,F15,F16,F17,F18,F19,F20,F21,F22,F23,F24";
    assert_eq!(
        parse_hotkeys(&chars(text)),
        vec![0x7C, 0x24, 0x7D, 0x7E, 0x7F, 0x80, 0x81, 0x82, 0x83, 0x84, 0x85, 0x86, 0x87]
    );
}

#[test]
fn names_ignore_case_and_whitespace() {
    assert_eq!(parse_hotkeys(&chars("  HotKey   =   home ,\tf15  ")), vec![0x24, 0x7E]);
}

#[test]
fn unicode_whitespace_is_trimmed() {
    assert_eq!(parse_hotkeys(&chars("\u{3000}hotkey\u{A0}=\u{2003}F16\u{85}")), vec![0x7F]);
}

#[test]
fn unknown_names_are_skipped() {
    assert_eq!(parse_hotkeys(&chars("hotkey = F12, ctrl, , F14")), vec![0x7D]);
}

#[test]
fn comments_and_blank_lines_are_skipped() {
    let text = "# hotkey = F14\n; hotkey = F15\n\n   \nhotkey = F16\n";
    assert_eq!(parse_hotkeys(&chars(text)), vec![0x7F]);
}

#[test]
fn other_settings_are_ignored() {
    assert_eq!(parse_hotkeys(&chars("volume = F13\nhotkeys = F14\nhot key = F15")), vec![]);
}

#[test]
fn line_without_equals_is_ignored() {
    assert_eq!(parse_hotkeys(&chars("hotkey F13")), vec![]);
}

#[test]
fn only_first_equals_splits() {
    assert_eq!(parse_hotkeys(&chars("hotkey = F13 = F14")), vec![]);
    assert_eq!(parse_hotkeys(&chars("hotkey = F13,=F14")), vec![0x7C]);
}

#[test]
fn hotkey_lines_add_up() {
    assert_eq!(parse_hotkeys(&chars("hotkey = F20\r\nhotkey = F21, F20\r\n")), vec![0x83, 0x84, 0x83]);
}

#[test]
fn missing_file_gives_default_and_writes_it() {
    let r = hotkeys_from_config(None);
    assert_eq!(r.keys, vec![VK_HOME]);
    assert_eq!(DEFAULT_HOTKEY, 0x24);
    assert!(r.write_default);
}

#[test]
fn empty_configuration_gives_default() {
    let r = hotkeys_from_config(Some(chars("# nothing here\n")));
    assert_eq!(r.keys, vec![0x24]);
    assert!(r.write_default);
}

#[test]
fn configured_keys_replace_default() {
    let r = hotkeys_from_config(Some(chars("hotkey = F13")));
    assert_eq!(r.keys, vec![VK_F13]);
    assert!(!r.write_default);
}

#[test]
fn default_configuration_names_home() {
    let text = default_config();
    assert!(text.starts_with("# QuickMute Configuration\n"));
    assert!(text.ends_with("hotkey = HOME\n"));
    assert_eq!(parse_hotkeys(&chars(text)), vec![0x24]);
}

#[test]
fn bindings_count_from_one() {
    let b = hotkey_bindings(&vec![0x7C, 0x24]);
    assert_eq!(b.len(), 2);
    assert_eq!((b[0].id, b[0].vk), (1, 0x7C));
    assert_eq!((b[1].id, b[1].vk), (2, 0x24));
}

#[test]
fn hook_swallows_configured_key_press() {
    let keys = vec![0x24u32];
    assert_eq!(hook_action(0, 0x100, 0x24, Some(&keys), true), HookAction::MaskAndTrigger);
    assert_eq!(hook_action(0, 0x104, 0x24, Some(&keys), true), HookAction::MaskAndTrigger);
}

#[test]
fn hook_forwards_without_window() {
    let keys = vec![0x24u32];
    assert_eq!(hook_action(0, 0x100, 0x24, Some(&keys), false), HookAction::MaskAndForward);
}

#[test]
fn hook_passes_other_events() {
    let keys = vec![0x24u32];
    assert_eq!(hook_action(0, 0x100, 0x7C, Some(&keys), true), HookAction::Forward);
    assert_eq!(hook_action(0, 0x101, 0x24, Some(&keys), true), HookAction::Forward);
    assert_eq!(hook_action(-1, 0x100, 0x24, Some(&keys), true), HookAction::Forward);
}

#[test]
fn hook_uses_home_before_configuration() {
    assert_eq!(hook_action(0, 0x100, 0x24, None, true), HookAction::MaskAndTrigger);
    assert_eq!(hook_action(0, 0x100, 0x7C, None, true), HookAction::Forward);
}

#[test]
fn hook_reads_low_32_bits_of_message() {
    let keys = vec![0x7Cu32];
    let wparam: usize = if usize::BITS == 64 { (1usize << 32) | 0x100 } else { 0x100 };
    assert_eq!(hook_action(0, wparam, 0x7C, Some(&keys), true), HookAction::MaskAndTrigger);
}

#[test]
fn home_key_toggles_out_of_the_box() {
    let keys = hotkeys_from_config(None).keys;
    assert_eq!(hook_action(0, 0x100, 0x24, Some(&keys), true), HookAction::MaskAndTrigger);
}
