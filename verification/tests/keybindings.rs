use namimado::input::keybindings::{
    BrowserAction, Key, KeyModifiers, KeyState, KeybindingManager, NamedKey, VimMode,
};

fn ch(s: &str) -> Key {
    Key::Character(s.into())
}

#[test]
fn process_standard_shortcut_new_tab() {
    let mgr = KeybindingManager::new();
    let action = mgr.process_standard_shortcut(&ch("t"), true, false);
    assert_eq!(action, Some(BrowserAction::NewTab));
}

#[test]
fn process_standard_shortcut_close_tab() {
    let mgr = KeybindingManager::new();
    let action = mgr.process_standard_shortcut(&ch("w"), true, false);
    assert_eq!(action, Some(BrowserAction::CloseTab));
}

#[test]
fn process_standard_shortcut_focus_address() {
    let mgr = KeybindingManager::new();
    let action = mgr.process_standard_shortcut(&ch("l"), true, false);
    assert_eq!(action, Some(BrowserAction::FocusAddressBar));
}

#[test]
fn process_standard_shortcut_tab_switching() {
    let mgr = KeybindingManager::new();
    for (key, expected_idx) in [("1", 0), ("5", 4), ("9", 8)] {
        let action = mgr.process_standard_shortcut(&ch(key), true, false);
        assert_eq!(action, Some(BrowserAction::SwitchToTab(expected_idx)));
    }
}

#[test]
fn process_standard_shortcut_bookmark() {
    let mgr = KeybindingManager::new();
    let action = mgr.process_standard_shortcut(&ch("d"), true, false);
    assert_eq!(action, Some(BrowserAction::BookmarkPage));
}

#[test]
fn process_standard_shortcut_no_cmd_returns_none() {
    let mgr = KeybindingManager::new();
    let action = mgr.process_standard_shortcut(&ch("t"), false, false);
    assert_eq!(action, None);
}

#[test]
fn address_bar_keys() {
    let mgr = KeybindingManager::new();
    let enter = mgr.process_address_bar_key(&Key::Named(NamedKey::Enter), false, false);
    assert_eq!(enter, Some(BrowserAction::AddressBarSubmit));

    let esc = mgr.process_address_bar_key(&Key::Named(NamedKey::Escape), false, false);
    assert_eq!(esc, Some(BrowserAction::AddressBarDismiss));

    let up = mgr.process_address_bar_key(&Key::Named(NamedKey::ArrowUp), false, false);
    assert_eq!(up, Some(BrowserAction::AddressBarUp));
}

#[test]
fn vim_normal_mode_keys() {
    let mut mgr = KeybindingManager::new();
    mgr.vim_enabled = true;

    let action = mgr.process_vim_normal(&ch("o"), false);
    assert_eq!(action, Some(BrowserAction::FocusAddressBar));

    let action = mgr.process_vim_normal(&ch("H"), true);
    assert_eq!(action, Some(BrowserAction::GoBack));
}

#[test]
fn vim_mode_transitions() {
    let mut mgr = KeybindingManager::new();
    mgr.vim_enabled = true;
    assert_eq!(mgr.vim_mode, VimMode::Normal);

    mgr.process_vim_normal(&ch("i"), false);
    assert_eq!(mgr.vim_mode, VimMode::Insert);

    mgr.enter_normal_mode();
    assert_eq!(mgr.vim_mode, VimMode::Normal);

    mgr.process_vim_normal(&ch(":"), false);
    assert_eq!(mgr.vim_mode, VimMode::Command);

    mgr.process_vim_key(&Key::Named(NamedKey::Escape), false);
    assert_eq!(mgr.vim_mode, VimMode::Normal);
}

#[test]
fn toggle_vim() {
    let mut mgr = KeybindingManager::new();
    assert!(!mgr.vim_enabled);
    mgr.toggle_vim();
    assert!(mgr.vim_enabled);
    mgr.toggle_vim();
    assert!(!mgr.vim_enabled);
}

fn mods(cmd: bool, shift: bool) -> KeyModifiers {
    KeyModifiers { super_key: cmd, control_key: false, shift_key: shift }
}

#[test]
fn released_keys_do_nothing() {
    let mut mgr = KeybindingManager::new();
    assert_eq!(mgr.process_key(&ch("t"), KeyState::Released, &mods(true, false)), None);
    mgr.vim_enabled = true;
    assert_eq!(mgr.process_key(&ch("i"), KeyState::Released, &mods(false, false)), None);
    assert_eq!(mgr.vim_mode, VimMode::Normal);
}

#[test]
fn process_key_prefers_address_bar_then_shortcuts_then_vim() {
    let mut mgr = KeybindingManager::new();
    mgr.address_bar_focused = true;
    assert_eq!(
        mgr.process_key(&Key::Named(NamedKey::Enter), KeyState::Pressed, &mods(false, false)),
        Some(BrowserAction::AddressBarSubmit)
    );
    mgr.address_bar_focused = false;
    assert_eq!(mgr.process_key(&ch("t"), KeyState::Pressed, &mods(true, false)), Some(BrowserAction::NewTab));
    assert_eq!(mgr.process_key(&ch("o"), KeyState::Pressed, &mods(false, false)), None);
    mgr.toggle_vim();
    assert_eq!(
        mgr.process_key(&ch("o"), KeyState::Pressed, &mods(false, false)),
        Some(BrowserAction::FocusAddressBar)
    );
}

#[test]
fn escape_returns_to_normal_from_command_and_follow() {
    let mut mgr = KeybindingManager::new();
    mgr.vim_enabled = true;
    for start in [VimMode::Command, VimMode::Follow, VimMode::Normal] {
        mgr.vim_mode = start;
        mgr.process_vim_key(&Key::Named(NamedKey::Escape), false);
        assert_eq!(mgr.vim_mode, VimMode::Normal);
    }
    // Insert mode leaves its keys to the page.
    mgr.vim_mode = VimMode::Insert;
    assert_eq!(mgr.process_vim_key(&Key::Named(NamedKey::Escape), false), None);
    assert_eq!(mgr.vim_mode, VimMode::Insert);
}

#[test]
fn shift_shortcuts_restore_and_history() {
    let mgr = KeybindingManager::new();
    assert_eq!(mgr.process_standard_shortcut(&ch("t"), true, true), Some(BrowserAction::RestoreClosedTab));
    assert_eq!(mgr.process_standard_shortcut(&ch("["), true, false), Some(BrowserAction::GoBack));
    assert_eq!(mgr.process_standard_shortcut(&ch("]"), true, false), Some(BrowserAction::GoForward));
}

#[test]
fn toggling_vim_off_resets_mode() {
    let mut mgr = KeybindingManager::new();
    mgr.toggle_vim();
    mgr.enter_insert_mode();
    assert_eq!(mgr.vim_mode, VimMode::Insert);
    mgr.toggle_vim();
    assert_eq!(mgr.vim_mode, VimMode::Normal);
}
