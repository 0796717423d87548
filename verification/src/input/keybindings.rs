//! Keyboard input: standard browser shortcuts, address-bar keys and an
//! optional vim-style modal layer, mapped to browser actions.

use vstd::prelude::*;

use crate::text::str_eq;

verus! {

/// The named (non-character) keys that the bindings distinguish.
#[derive(Debug, Clone, Copy, PartialEq, Eq, Structural)]
pub enum NamedKey {
    Enter,
    Escape,
    ArrowUp,
    ArrowDown,
    Tab,
    /// Any other named key.
    Other,
}

/// A logical key: the text it produces, or a named key.
#[derive(Debug, Clone)]
pub enum Key {
    /// A key producing text.
    Character(String),
    /// A named key.
    Named(NamedKey),
    /// A key the platform could not identify.
    Unidentified,
}

/// The model of a key.
pub enum KeyView {
    Character(Seq<char>),
    Named(NamedKey),
    Unidentified,
}

impl View for Key {
    type V = KeyView;

    open spec fn view(&self) -> KeyView {
        match self {
            Key::Character(s) => KeyView::Character(s@),
            Key::Named(n) => KeyView::Named(*n),
            Key::Unidentified => KeyView::Unidentified,
        }
    }
}

/// Whether a key was pressed or released.
#[derive(Debug, Clone, Copy, PartialEq, Eq, Structural)]
pub enum KeyState {
    Pressed,
    Released,
}

/// The modifier keys held during a key event.
#[derive(Debug, Clone, Copy, PartialEq, Eq, Structural)]
pub struct KeyModifiers {
    /// The Super (Cmd / Windows) key.
    pub super_key: bool,
    /// The Control key.
    pub control_key: bool,
    /// The Shift key.
    pub shift_key: bool,
}

/// A browser action triggered by a keyboard shortcut.
#[derive(Debug, Clone, PartialEq, Eq, Structural)]
pub enum BrowserAction {
    NewTab,
    CloseTab,
    NextTab,
    PrevTab,
    SwitchToTab(usize),
    RestoreClosedTab,
    DuplicateTab,
    PinTab,
    FocusAddressBar,
    GoBack,
    GoForward,
    Reload,
    ReloadHard,
    Stop,
    BookmarkPage,
    ToggleBookmarkBar,
    ShowBookmarks,
    FindOnPage,
    ToggleSidebar,
    ShowHistory,
    ShowDownloads,
    ToggleVimMode,
    ZoomIn,
    ZoomOut,
    ZoomReset,
    ToggleFullscreen,
    ToggleDevTools,
    AddressBarUp,
    AddressBarDown,
    AddressBarSubmit,
    AddressBarDismiss,
}

/// Vim-style navigation mode.
#[derive(Debug, Clone, Copy, PartialEq, Eq, Structural)]
pub enum VimMode {
    /// Keyboard commands navigate the page.
    Normal,
    /// Keyboard input goes to form fields / address bar.
    Insert,
    /// `:` prefix commands.
    Command,
    /// Link hint labels visible, waiting for selection.
    Follow,
}

/// The action of a key while the address bar has focus.
pub open spec fn address_bar_action(key: KeyView, ctrl_or_cmd: bool) -> Option<BrowserAction> {
    match key {
        KeyView::Named(NamedKey::Enter) => Some(BrowserAction::AddressBarSubmit),
        KeyView::Named(NamedKey::Escape) => Some(BrowserAction::AddressBarDismiss),
        KeyView::Named(NamedKey::ArrowUp) => Some(BrowserAction::AddressBarUp),
        KeyView::Named(NamedKey::ArrowDown) => Some(BrowserAction::AddressBarDown),
        KeyView::Character(c) => if ctrl_or_cmd && c == "l"@ {
            Some(BrowserAction::FocusAddressBar)
        } else {
            None
        },
        _ => None,
    }
}

/// The tab that Cmd+`c` switches to, for the digits 1 to 9.
pub open spec fn digit_tab(c: Seq<char>) -> Option<usize> {
    if c == "1"@ {
        Some(0)
    } else if c == "2"@ {
        Some(1)
    } else if c == "3"@ {
        Some(2)
    } else if c == "4"@ {
        Some(3)
    } else if c == "5"@ {
        Some(4)
    } else if c == "6"@ {
        Some(5)
    } else if c == "7"@ {
        Some(6)
    } else if c == "8"@ {
        Some(7)
    } else if c == "9"@ {
        Some(8)
    } else {
        None
    }
}

/// The action of a character key with Cmd/Ctrl held, checked in order.
pub open spec fn shortcut_for_char(c: Seq<char>, shift: bool) -> Option<BrowserAction> {
    if c == "t"@ && !shift {
        Some(BrowserAction::NewTab)
    } else if (c == "t"@ || c == "T"@) && shift {
        Some(BrowserAction::RestoreClosedTab)
    } else if c == "w"@ {
        Some(BrowserAction::CloseTab)
    } else if c == "l"@ {
        Some(BrowserAction::FocusAddressBar)
    } else if c == "r"@ && !shift {
        Some(BrowserAction::Reload)
    } else if (c == "r"@ || c == "R"@) && shift {
        Some(BrowserAction::ReloadHard)
    } else if c == "d"@ {
        Some(BrowserAction::BookmarkPage)
    } else if c == "f"@ {
        Some(BrowserAction::FindOnPage)
    } else if (c == "b"@ || c == "B"@) && shift {
        Some(BrowserAction::ToggleBookmarkBar)
    } else if c == "="@ || c == "+"@ {
        Some(BrowserAction::ZoomIn)
    } else if c == "-"@ {
        Some(BrowserAction::ZoomOut)
    } else if c == "0"@ {
        Some(BrowserAction::ZoomReset)
    } else if c == "["@ {
        Some(BrowserAction::GoBack)
    } else if c == "]"@ {
        Some(BrowserAction::GoForward)
    } else {
        match digit_tab(c) {
            Some(i) => Some(BrowserAction::SwitchToTab(i)),
            None => None,
        }
    }
}

/// The standard browser shortcut for a key (only with Cmd/Ctrl held).
pub open spec fn standard_shortcut(key: KeyView, ctrl_or_cmd: bool, shift: bool) -> Option<BrowserAction> {
    if !ctrl_or_cmd {
        None
    } else {
        match key {
            KeyView::Character(c) => shortcut_for_char(c, shift),
            KeyView::Named(NamedKey::Tab) => if !shift {
                Some(BrowserAction::NextTab)
            } else {
                Some(BrowserAction::PrevTab)
            },
            _ => None,
        }
    }
}

/// The mode and action after a key in vim normal mode.
pub open spec fn vim_normal_step(mode: VimMode, key: KeyView, shift: bool) -> (VimMode, Option<BrowserAction>) {
    match key {
        KeyView::Character(c) => if c == "i"@ {
            (VimMode::Insert, None)
        } else if c == ":"@ {
            (VimMode::Command, None)
        } else if c == "f"@ && !shift {
            (VimMode::Follow, None)
        } else if c == "o"@ {
            (mode, Some(BrowserAction::FocusAddressBar))
        } else if c == "H"@ {
            (mode, Some(BrowserAction::GoBack))
        } else if c == "L"@ {
            (mode, Some(BrowserAction::GoForward))
        } else if c == "r"@ {
            (mode, Some(BrowserAction::Reload))
        } else if c == "d"@ {
            (mode, Some(BrowserAction::CloseTab))
        } else if c == "u"@ {
            (mode, Some(BrowserAction::RestoreClosedTab))
        } else if c == "J"@ {
            (mode, Some(BrowserAction::NextTab))
        } else if c == "K"@ {
            (mode, Some(BrowserAction::PrevTab))
        } else if c == "b"@ && shift {
            (mode, Some(BrowserAction::ShowBookmarks))
        } else if c == "h"@ && shift {
            (mode, Some(BrowserAction::ShowHistory))
        } else {
            (mode, None)
        },
        KeyView::Named(NamedKey::Escape) => (VimMode::Normal, None),
        _ => (mode, None),
    }
}

/// The mode and action after a key in the vim layer.
pub open spec fn vim_step(mode: VimMode, key: KeyView, shift: bool) -> (VimMode, Option<BrowserAction>) {
    match mode {
        VimMode::Normal => vim_normal_step(mode, key, shift),
        VimMode::Command | VimMode::Follow => if key == KeyView::Named(NamedKey::Escape) {
            (VimMode::Normal, None)
        } else {
            (mode, None)
        },
        VimMode::Insert => (mode, None),
    }
}

/// Manages keyboard input and maps it to browser actions: standard browser
/// shortcuts and optional vim-style modal navigation.
#[derive(Debug)]
pub struct KeybindingManager {
    /// Whether vim-style mode is enabled.
    pub vim_enabled: bool,
    /// Current vim mode.
    pub vim_mode: VimMode,
    /// Whether the address bar is focused (affects keybinding dispatch).
    pub address_bar_focused: bool,
}

/// The manager state and action after a key event.
pub open spec fn key_step(
    vim_enabled: bool,
    vim_mode: VimMode,
    address_bar_focused: bool,
    key: KeyView,
    state: KeyState,
    modifiers: KeyModifiers,
) -> (VimMode, Option<BrowserAction>) {
    let ctrl = modifiers.super_key || modifiers.control_key;
    let shift = modifiers.shift_key;
    if state != KeyState::Pressed {
        (vim_mode, None)
    } else if address_bar_focused {
        (vim_mode, address_bar_action(key, ctrl))
    } else if standard_shortcut(key, ctrl, shift) is Some {
        (vim_mode, standard_shortcut(key, ctrl, shift))
    } else if vim_enabled && vim_mode != VimMode::Insert {
        vim_step(vim_mode, key, shift)
    } else {
        (vim_mode, None)
    }
}

/// Whether `key` is the character string `lit`.
fn is_char(key: &Key, lit: &str) -> (b: bool)
    ensures
        b == (key@ == KeyView::Character(lit@)),
{
    match key {
        Key::Character(c) => str_eq(c.as_str(), lit),
        _ => false,
    }
}

impl KeybindingManager {
    /// Vim mode off, normal mode, address bar unfocused.
    pub fn new() -> (m: KeybindingManager)
        ensures
            !m.vim_enabled,
            m.vim_mode == VimMode::Normal,
            !m.address_bar_focused,
    {
        KeybindingManager { vim_enabled: false, vim_mode: VimMode::Normal, address_bar_focused: false }
    }

    /// Map a key event to a browser action: only presses count; with the
    /// address bar focused its keys apply; else standard shortcuts, then
    /// vim bindings when enabled and not in insert mode.
    pub fn process_key(&mut self, key: &Key, state: KeyState, modifiers: &KeyModifiers) -> (res: Option<BrowserAction>)
        ensures
            (final(self).vim_mode, res) == key_step(
                old(self).vim_enabled,
                old(self).vim_mode,
                old(self).address_bar_focused,
                key@,
                state,
                *modifiers,
            ),
            final(self).vim_enabled == old(self).vim_enabled,
            final(self).address_bar_focused == old(self).address_bar_focused,
    {
        if state != KeyState::Pressed {
            return None;
        }
        let ctrl_or_cmd = modifiers.super_key || modifiers.control_key;
        let shift = modifiers.shift_key;
        if self.address_bar_focused {
            return self.process_address_bar_key(key, ctrl_or_cmd, shift);
        }
        let standard = self.process_standard_shortcut(key, ctrl_or_cmd, shift);
        if standard.is_some() {
            return standard;
        }
        if self.vim_enabled && self.vim_mode != VimMode::Insert {
            return self.process_vim_key(key, shift);
        }
        None
    }

    /// Keys while the address bar is focused.
    pub fn process_address_bar_key(&self, key: &Key, ctrl_or_cmd: bool, shift: bool) -> (res: Option<BrowserAction>)
        ensures
            res == address_bar_action(key@, ctrl_or_cmd),
    {
        match key {
            Key::Named(NamedKey::Enter) => Some(BrowserAction::AddressBarSubmit),
            Key::Named(NamedKey::Escape) => Some(BrowserAction::AddressBarDismiss),
            Key::Named(NamedKey::ArrowUp) => Some(BrowserAction::AddressBarUp),
            Key::Named(NamedKey::ArrowDown) => Some(BrowserAction::AddressBarDown),
            Key::Character(c) => if ctrl_or_cmd && str_eq(c.as_str(), "l") {
                Some(BrowserAction::FocusAddressBar)
            } else {
                None
            },
            _ => None,
        }
    }

    /// The tab index for a digit key 1 to 9.
    fn digit_tab_of(c: &str) -> (res: Option<usize>)
        ensures
            res == digit_tab(c@),
    {
        if str_eq(c, "1") {
            Some(0)
        } else if str_eq(c, "2") {
            Some(1)
        } else if str_eq(c, "3") {
            Some(2)
        } else if str_eq(c, "4") {
            Some(3)
        } else if str_eq(c, "5") {
            Some(4)
        } else if str_eq(c, "6") {
            Some(5)
        } else if str_eq(c, "7") {
            Some(6)
        } else if str_eq(c, "8") {
            Some(7)
        } else if str_eq(c, "9") {
            Some(8)
        } else {
            None
        }
    }

    /// Standard browser shortcuts (only with Cmd/Ctrl held).
    pub fn process_standard_shortcut(&self, key: &Key, ctrl_or_cmd: bool, shift: bool) -> (res: Option<BrowserAction>)
        ensures
            res == standard_shortcut(key@, ctrl_or_cmd, shift),
    {
        if !ctrl_or_cmd {
            return None;
        }
        match key {
            Key::Character(c) => {
                let c = c.as_str();
                if str_eq(c, "t") && !shift {
                    Some(BrowserAction::NewTab)
                } else if (str_eq(c, "t") || str_eq(c, "T")) && shift {
                    Some(BrowserAction::RestoreClosedTab)
                } else if str_eq(c, "w") {
                    Some(BrowserAction::CloseTab)
                } else if str_eq(c, "l") {
                    Some(BrowserAction::FocusAddressBar)
                } else if str_eq(c, "r") && !shift {
                    Some(BrowserAction::Reload)
                } else if (str_eq(c, "r") || str_eq(c, "R")) && shift {
                    Some(BrowserAction::ReloadHard)
                } else if str_eq(c, "d") {
                    Some(BrowserAction::BookmarkPage)
                } else if str_eq(c, "f") {
                    Some(BrowserAction::FindOnPage)
                } else if (str_eq(c, "b") || str_eq(c, "B")) && shift {
                    Some(BrowserAction::ToggleBookmarkBar)
                } else if str_eq(c, "=") || str_eq(c, "+") {
                    Some(BrowserAction::ZoomIn)
                } else if str_eq(c, "-") {
                    Some(BrowserAction::ZoomOut)
                } else if str_eq(c, "0") {
                    Some(BrowserAction::ZoomReset)
                } else if str_eq(c, "[") {
                    Some(BrowserAction::GoBack)
                } else if str_eq(c, "]") {
                    Some(BrowserAction::GoForward)
                } else {
                    match KeybindingManager::digit_tab_of(c) {
                        Some(i) => Some(BrowserAction::SwitchToTab(i)),
                        None => None,
                    }
                }
            },
            Key::Named(NamedKey::Tab) => if !shift {
                Some(BrowserAction::NextTab)
            } else {
                Some(BrowserAction::PrevTab)
            },
            _ => None,
        }
    }

    /// Keys in the vim layer.
    pub fn process_vim_key(&mut self, key: &Key, shift: bool) -> (res: Option<BrowserAction>)
        ensures
            (final(self).vim_mode, res) == vim_step(old(self).vim_mode, key@, shift),
            final(self).vim_enabled == old(self).vim_enabled,
            final(self).address_bar_focused == old(self).address_bar_focused,
    {
        match self.vim_mode {
            VimMode::Normal => self.process_vim_normal(key, shift),
            VimMode::Command | VimMode::Follow => {
                if let Key::Named(NamedKey::Escape) = key {
                    self.vim_mode = VimMode::Normal;
                }
                None
            },
            VimMode::Insert => None,
        }
    }

    /// Keys in vim normal mode.
    pub fn process_vim_normal(&mut self, key: &Key, shift: bool) -> (res: Option<BrowserAction>)
        ensures
            (final(self).vim_mode, res) == vim_normal_step(old(self).vim_mode, key@, shift),
            final(self).vim_enabled == old(self).vim_enabled,
            final(self).address_bar_focused == old(self).address_bar_focused,
    {
        match key {
            Key::Character(c) => {
                let c = c.as_str();
                if str_eq(c, "i") {
                    self.vim_mode = VimMode::Insert;
                    None
                } else if str_eq(c, ":") {
                    self.vim_mode = VimMode::Command;
                    None
                } else if str_eq(c, "f") && !shift {
                    self.vim_mode = VimMode::Follow;
                    None
                } else if str_eq(c, "o") {
                    Some(BrowserAction::FocusAddressBar)
                } else if str_eq(c, "H") {
                    Some(BrowserAction::GoBack)
                } else if str_eq(c, "L") {
                    Some(BrowserAction::GoForward)
                } else if str_eq(c, "r") {
                    Some(BrowserAction::Reload)
                } else if str_eq(c, "d") {
                    Some(BrowserAction::CloseTab)
                } else if str_eq(c, "u") {
                    Some(BrowserAction::RestoreClosedTab)
                } else if str_eq(c, "J") {
                    Some(BrowserAction::NextTab)
                } else if str_eq(c, "K") {
                    Some(BrowserAction::PrevTab)
                } else if str_eq(c, "b") && shift {
                    Some(BrowserAction::ShowBookmarks)
                } else if str_eq(c, "h") && shift {
                    Some(BrowserAction::ShowHistory)
                } else {
                    None
                }
            },
            Key::Named(NamedKey::Escape) => {
                self.vim_mode = VimMode::Normal;
                None
            },
            _ => None,
        }
    }

    /// Toggle vim mode; turning it off returns to normal mode.
    pub fn toggle_vim(&mut self)
        ensures
            final(self).vim_enabled == !old(self).vim_enabled,
            final(self).vim_mode == if final(self).vim_enabled {
                old(self).vim_mode
            } else {
                VimMode::Normal
            },
            final(self).address_bar_focused == old(self).address_bar_focused,
    {
        self.vim_enabled = !self.vim_enabled;
        if !self.vim_enabled {
            self.vim_mode = VimMode::Normal;
        }
    }

    /// Enter insert mode (e.g. when clicking in a text field), when vim mode
    /// is enabled.
    pub fn enter_insert_mode(&mut self)
        ensures
            final(self).vim_mode == if old(self).vim_enabled {
                VimMode::Insert
            } else {
                old(self).vim_mode
            },
            final(self).vim_enabled == old(self).vim_enabled,
            final(self).address_bar_focused == old(self).address_bar_focused,
    {
        if self.vim_enabled {
            self.vim_mode = VimMode::Insert;
        }
    }

    /// Return to normal mode (e.g. on Escape), when vim mode is enabled.
    pub fn enter_normal_mode(&mut self)
        ensures
            final(self).vim_mode == if old(self).vim_enabled {
                VimMode::Normal
            } else {
                old(self).vim_mode
            },
            final(self).vim_enabled == old(self).vim_enabled,
            final(self).address_bar_focused == old(self).address_bar_focused,
    {
        if self.vim_enabled {
            self.vim_mode = VimMode::Normal;
        }
    }
}

impl Default for KeybindingManager {
    fn default() -> (m: KeybindingManager)
        ensures
            !m.vim_enabled,
            m.vim_mode == VimMode::Normal,
            !m.address_bar_focused,
    {
        KeybindingManager::new()
    }
}

/// A released key never does anything.
pub proof fn lemma_release_is_inert(
    vim_enabled: bool,
    vim_mode: VimMode,
    focused: bool,
    key: KeyView,
    modifiers: KeyModifiers,
)
    ensures
        key_step(vim_enabled, vim_mode, focused, key, KeyState::Released, modifiers) == (vim_mode, None::<BrowserAction>),
{
}

/// Without Cmd or Ctrl there is no standard shortcut.
pub proof fn lemma_no_shortcut_without_modifier(key: KeyView, shift: bool)
    ensures
        standard_shortcut(key, false, shift) is None,
{
}

/// Escape always leaves command and follow mode for normal mode, and keeps
/// normal mode.
pub proof fn lemma_escape_returns_to_normal(mode: VimMode, shift: bool)
    requires
        mode != VimMode::Insert,
    ensures
        vim_step(mode, KeyView::Named(NamedKey::Escape), shift) == (VimMode::Normal, None::<BrowserAction>),
{
}

/// With the address bar focused, a key never changes the vim mode.
pub proof fn lemma_address_bar_keeps_mode(
    vim_enabled: bool,
    vim_mode: VimMode,
    key: KeyView,
    state: KeyState,
    modifiers: KeyModifiers,
)
    ensures
        key_step(vim_enabled, vim_mode, true, key, state, modifiers).0 == vim_mode,
{
}

} // verus!

verus! {

/// The standard shortcuts with Cmd/Ctrl held, whatever the shift key:
/// `w` closes the tab, `l` focuses the address bar, `d` bookmarks the page,
/// `f` finds on the page, `=` and `+` zoom in, `-` zooms out, `0` resets the
/// zoom, `[` and `]` go back and forward, the digits 1 to 9 switch to the
/// tabs 0 to 8, and Tab (with shift, back) cycles through the tabs. `t`
/// opens a tab and `r` reloads; with shift, `t` or `T` restores a closed tab,
/// `r` or `R` reloads hard and `b` or `B` toggles the bookmark bar.
pub proof fn lemma_standard_shortcut_table(shift: bool)
    ensures
        standard_shortcut(KeyView::Character("w"@), true, shift) == Some(BrowserAction::CloseTab),
        standard_shortcut(KeyView::Character("l"@), true, shift) == Some(BrowserAction::FocusAddressBar),
        standard_shortcut(KeyView::Character("d"@), true, shift) == Some(BrowserAction::BookmarkPage),
        standard_shortcut(KeyView::Character("f"@), true, shift) == Some(BrowserAction::FindOnPage),
        standard_shortcut(KeyView::Character("="@), true, shift) == Some(BrowserAction::ZoomIn),
        standard_shortcut(KeyView::Character("+"@), true, shift) == Some(BrowserAction::ZoomIn),
        standard_shortcut(KeyView::Character("-"@), true, shift) == Some(BrowserAction::ZoomOut),
        standard_shortcut(KeyView::Character("0"@), true, shift) == Some(BrowserAction::ZoomReset),
        standard_shortcut(KeyView::Character("["@), true, shift) == Some(BrowserAction::GoBack),
        standard_shortcut(KeyView::Character("]"@), true, shift) == Some(BrowserAction::GoForward),
        standard_shortcut(KeyView::Character("1"@), true, shift) == Some(BrowserAction::SwitchToTab(0)),
        standard_shortcut(KeyView::Character("5"@), true, shift) == Some(BrowserAction::SwitchToTab(4)),
        standard_shortcut(KeyView::Character("9"@), true, shift) == Some(BrowserAction::SwitchToTab(8)),
        standard_shortcut(KeyView::Named(NamedKey::Tab), true, shift) == if shift {
            Some(BrowserAction::PrevTab)
        } else {
            Some(BrowserAction::NextTab)
        },
        standard_shortcut(KeyView::Character("t"@), true, shift) == if shift {
            Some(BrowserAction::RestoreClosedTab)
        } else {
            Some(BrowserAction::NewTab)
        },
        standard_shortcut(KeyView::Character("r"@), true, shift) == if shift {
            Some(BrowserAction::ReloadHard)
        } else {
            Some(BrowserAction::Reload)
        },
        shift ==> standard_shortcut(KeyView::Character("T"@), true, shift) == Some(
            BrowserAction::RestoreClosedTab,
        ),
        shift ==> standard_shortcut(KeyView::Character("R"@), true, shift) == Some(BrowserAction::ReloadHard),
        shift ==> standard_shortcut(KeyView::Character("b"@), true, shift) == Some(
            BrowserAction::ToggleBookmarkBar,
        ),
        shift ==> standard_shortcut(KeyView::Character("B"@), true, shift) == Some(
            BrowserAction::ToggleBookmarkBar,
        ),
{
    reveal_strlit("t");
    assert("t"@[0] == 't');
    reveal_strlit("T");
    assert("T"@[0] == 'T');
    reveal_strlit("w");
    assert("w"@[0] == 'w');
    reveal_strlit("l");
    assert("l"@[0] == 'l');
    reveal_strlit("r");
    assert("r"@[0] == 'r');
    reveal_strlit("R");
    assert("R"@[0] == 'R');
    reveal_strlit("d");
    assert("d"@[0] == 'd');
    reveal_strlit("f");
    assert("f"@[0] == 'f');
    reveal_strlit("b");
    assert("b"@[0] == 'b');
    reveal_strlit("B");
    assert("B"@[0] == 'B');
    reveal_strlit("=");
    assert("="@[0] == '=');
    reveal_strlit("+");
    assert("+"@[0] == '+');
    reveal_strlit("-");
    assert("-"@[0] == '-');
    reveal_strlit("0");
    assert("0"@[0] == '0');
    reveal_strlit("[");
    assert("["@[0] == '[');
    reveal_strlit("]");
    assert("]"@[0] == ']');
    reveal_strlit("1");
    assert("1"@[0] == '1');
    reveal_strlit("2");
    assert("2"@[0] == '2');
    reveal_strlit("3");
    assert("3"@[0] == '3');
    reveal_strlit("4");
    assert("4"@[0] == '4');
    reveal_strlit("5");
    assert("5"@[0] == '5');
    reveal_strlit("6");
    assert("6"@[0] == '6');
    reveal_strlit("7");
    assert("7"@[0] == '7');
    reveal_strlit("8");
    assert("8"@[0] == '8');
    reveal_strlit("9");
    assert("9"@[0] == '9');
}

/// The keys of vim normal mode: `i`, `:` and `f` (without shift) enter
/// insert, command and follow mode; `o` focuses the address bar, `H` and `L`
/// go back and forward, `r` reloads, `d` closes the tab, `u` restores one,
/// `J` and `K` move to the next and previous tab, and with shift `b` shows
/// the bookmarks and `h` the history; Escape stays in normal mode.
pub proof fn lemma_vim_normal_table(shift: bool)
    ensures
        vim_normal_step(VimMode::Normal, KeyView::Character("i"@), shift) == (VimMode::Insert, None::<BrowserAction>),
        vim_normal_step(VimMode::Normal, KeyView::Character(":"@), shift) == (VimMode::Command, None::<BrowserAction>),
        !shift ==> vim_normal_step(VimMode::Normal, KeyView::Character("f"@), shift) == (
            VimMode::Follow,
            None::<BrowserAction>,
        ),
        vim_normal_step(VimMode::Normal, KeyView::Character("o"@), shift) == (
            VimMode::Normal,
            Some(BrowserAction::FocusAddressBar),
        ),
        vim_normal_step(VimMode::Normal, KeyView::Character("H"@), shift) == (VimMode::Normal, Some(BrowserAction::GoBack)),
        vim_normal_step(VimMode::Normal, KeyView::Character("L"@), shift) == (
            VimMode::Normal,
            Some(BrowserAction::GoForward),
        ),
        vim_normal_step(VimMode::Normal, KeyView::Character("r"@), shift) == (VimMode::Normal, Some(BrowserAction::Reload)),
        vim_normal_step(VimMode::Normal, KeyView::Character("d"@), shift) == (VimMode::Normal, Some(BrowserAction::CloseTab)),
        vim_normal_step(VimMode::Normal, KeyView::Character("u"@), shift) == (
            VimMode::Normal,
            Some(BrowserAction::RestoreClosedTab),
        ),
        vim_normal_step(VimMode::Normal, KeyView::Character("J"@), shift) == (VimMode::Normal, Some(BrowserAction::NextTab)),
        vim_normal_step(VimMode::Normal, KeyView::Character("K"@), shift) == (VimMode::Normal, Some(BrowserAction::PrevTab)),
        shift ==> vim_normal_step(VimMode::Normal, KeyView::Character("b"@), shift) == (
            VimMode::Normal,
            Some(BrowserAction::ShowBookmarks),
        ),
        shift ==> vim_normal_step(VimMode::Normal, KeyView::Character("h"@), shift) == (
            VimMode::Normal,
            Some(BrowserAction::ShowHistory),
        ),
        vim_normal_step(VimMode::Normal, KeyView::Named(NamedKey::Escape), shift) == (
            VimMode::Normal,
            None::<BrowserAction>,
        ),
{
    reveal_strlit("i");
    assert("i"@[0] == 'i');
    reveal_strlit(":");
    assert(":"@[0] == ':');
    reveal_strlit("f");
    assert("f"@[0] == 'f');
    reveal_strlit("o");
    assert("o"@[0] == 'o');
    reveal_strlit("H");
    assert("H"@[0] == 'H');
    reveal_strlit("L");
    assert("L"@[0] == 'L');
    reveal_strlit("r");
    assert("r"@[0] == 'r');
    reveal_strlit("d");
    assert("d"@[0] == 'd');
    reveal_strlit("u");
    assert("u"@[0] == 'u');
    reveal_strlit("J");
    assert("J"@[0] == 'J');
    reveal_strlit("K");
    assert("K"@[0] == 'K');
    reveal_strlit("b");
    assert("b"@[0] == 'b');
    reveal_strlit("h");
    assert("h"@[0] == 'h');
}

/// With the address bar focused, Enter submits, Escape dismisses, the
/// arrows move through the suggestions, Cmd/Ctrl+L focuses it again, and
/// other keys go to the text (no action); the vim layer and the standard
/// shortcuts are not consulted.
pub proof fn lemma_address_bar_keys(vim_enabled: bool, vim_mode: VimMode, modifiers: KeyModifiers)
    ensures
        key_step(vim_enabled, vim_mode, true, KeyView::Named(NamedKey::Enter), KeyState::Pressed, modifiers)
            == (vim_mode, Some(BrowserAction::AddressBarSubmit)),
        key_step(vim_enabled, vim_mode, true, KeyView::Named(NamedKey::Escape), KeyState::Pressed, modifiers)
            == (vim_mode, Some(BrowserAction::AddressBarDismiss)),
        key_step(vim_enabled, vim_mode, true, KeyView::Named(NamedKey::ArrowUp), KeyState::Pressed, modifiers)
            == (vim_mode, Some(BrowserAction::AddressBarUp)),
        key_step(vim_enabled, vim_mode, true, KeyView::Named(NamedKey::ArrowDown), KeyState::Pressed, modifiers)
            == (vim_mode, Some(BrowserAction::AddressBarDown)),
        (modifiers.control_key || modifiers.super_key) ==> key_step(
            vim_enabled,
            vim_mode,
            true,
            KeyView::Character("l"@),
            KeyState::Pressed,
            modifiers,
        ) == (vim_mode, Some(BrowserAction::FocusAddressBar)),
        key_step(vim_enabled, vim_mode, true, KeyView::Character("w"@), KeyState::Pressed, modifiers)
            == (vim_mode, None::<BrowserAction>),
{
    reveal_strlit("l");
    reveal_strlit("w");
    assert("l"@[0] == 'l');
    assert("w"@[0] == 'w');
}

/// Outside the address bar a standard shortcut wins over the vim layer: with
/// Cmd/Ctrl held, `-` zooms out and `w` closes the tab whatever the vim
/// mode; without it, vim normal mode turns `d` into closing the tab, while
/// with vim off or in insert mode a plain key does nothing.
pub proof fn lemma_shortcuts_before_vim(vim_mode: VimMode, shift: bool)
    ensures
        key_step(true, vim_mode, false, KeyView::Character("-"@), KeyState::Pressed, KeyModifiers {
            shift_key: shift,
            control_key: true,
            super_key: false,
        }).1 == Some(BrowserAction::ZoomOut),
        key_step(true, vim_mode, false, KeyView::Character("w"@), KeyState::Pressed, KeyModifiers {
            shift_key: shift,
            control_key: false,
            super_key: true,
        }).1 == Some(BrowserAction::CloseTab),
        key_step(true, VimMode::Normal, false, KeyView::Character("d"@), KeyState::Pressed, KeyModifiers {
            shift_key: shift,
            control_key: false,
            super_key: false,
        }).1 == Some(BrowserAction::CloseTab),
        key_step(false, vim_mode, false, KeyView::Character("d"@), KeyState::Pressed, KeyModifiers {
            shift_key: shift,
            control_key: false,
            super_key: false,
        }).1 is None,
        key_step(true, VimMode::Insert, false, KeyView::Character("d"@), KeyState::Pressed, KeyModifiers {
            shift_key: shift,
            control_key: false,
            super_key: false,
        }).1 is None,
{
    lemma_standard_shortcut_table(shift);
    lemma_vim_normal_table(shift);
}

} // verus!
