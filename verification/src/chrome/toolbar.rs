//! The toolbar: address bar with autocompletion, navigation buttons,
//! bookmark star and download badge.

use vstd::prelude::*;

use crate::location::Url;

verus! {

/// The state of a navigation button.
#[derive(Debug, Clone, Copy, PartialEq, Eq, Structural)]
pub enum ButtonState {
    /// The button is enabled and can be clicked.
    Enabled,
    /// The button is disabled (greyed out).
    Disabled,
}

impl ButtonState {
    /// Whether the button is enabled.
    pub fn is_enabled(self) -> (b: bool)
        ensures
            b == (self == ButtonState::Enabled),
    {
        match self {
            ButtonState::Enabled => true,
            ButtonState::Disabled => false,
        }
    }

    /// The button state for an enabled flag.
    pub open spec fn spec_from_bool(enabled: bool) -> ButtonState {
        if enabled {
            ButtonState::Enabled
        } else {
            ButtonState::Disabled
        }
    }

    /// Create a `ButtonState` from a boolean.
    pub fn from_bool(enabled: bool) -> (s: ButtonState)
        ensures
            s == ButtonState::spec_from_bool(enabled),
    {
        if enabled {
            ButtonState::Enabled
        } else {
            ButtonState::Disabled
        }
    }
}

/// Where an autocomplete suggestion came from.
#[derive(Debug, Clone, Copy, PartialEq, Eq, Structural)]
pub enum SuggestionSource {
    History,
    Bookmark,
    Search,
}

/// An autocomplete suggestion for the address bar.
pub struct AddressSuggestion {
    /// The URL this suggestion leads to.
    pub url: String,
    /// Display title.
    pub title: String,
    /// Source of the suggestion.
    pub source: SuggestionSource,
}

/// The model of a suggestion.
pub struct AddressSuggestionView {
    pub url: Seq<char>,
    pub title: Seq<char>,
    pub source: SuggestionSource,
}

impl View for AddressSuggestion {
    type V = AddressSuggestionView;

    open spec fn view(&self) -> AddressSuggestionView {
        AddressSuggestionView { url: self.url@, title: self.title@, source: self.source }
    }
}

/// The views of a sequence of suggestions.
pub open spec fn suggestion_views(s: Seq<AddressSuggestion>) -> Seq<AddressSuggestionView> {
    s.map_values(|a: AddressSuggestion| a@)
}

/// The model of the toolbar.
pub struct ToolbarView {
    pub address_text: Seq<char>,
    pub address_focused: bool,
    pub suggestions: Seq<AddressSuggestionView>,
    pub selected_suggestion: Option<usize>,
    pub back: ButtonState,
    pub forward: ButtonState,
    pub loading: bool,
    pub is_bookmarked: bool,
    pub active_downloads: usize,
    pub show_bookmark_bar: bool,
}

impl ToolbarView {
    /// The selection, when there is one, points at a suggestion.
    pub open spec fn selection_in_range(self) -> bool {
        match self.selected_suggestion {
            Some(i) => i < self.suggestions.len(),
            None => true,
        }
    }

    /// The toolbar showing `text` as a settled address: unfocused, with no
    /// suggestions.
    pub open spec fn with_address(self, text: Seq<char>) -> ToolbarView {
        ToolbarView {
            address_text: text,
            address_focused: false,
            suggestions: Seq::empty(),
            selected_suggestion: None,
            ..self
        }
    }

    /// The selection after moving down: the first suggestion after none or
    /// after the last, else the next one. Unchanged without suggestions.
    pub open spec fn selected_next(self) -> ToolbarView {
        if self.suggestions.len() == 0 {
            self
        } else {
            ToolbarView {
                selected_suggestion: Some(
                    match self.selected_suggestion {
                        Some(i) => if i + 1 < self.suggestions.len() {
                            (i + 1) as usize
                        } else {
                            0usize
                        },
                        None => 0usize,
                    },
                ),
                ..self
            }
        }
    }

    /// The selection after moving up: the last suggestion after none or
    /// after the first, else the previous one. Unchanged without suggestions.
    pub open spec fn selected_prev(self) -> ToolbarView {
        if self.suggestions.len() == 0 {
            self
        } else {
            ToolbarView {
                selected_suggestion: Some(
                    match self.selected_suggestion {
                        Some(i) => if i == 0 {
                            (self.suggestions.len() - 1) as usize
                        } else {
                            (i - 1) as usize
                        },
                        None => (self.suggestions.len() - 1) as usize,
                    },
                ),
                ..self
            }
        }
    }

    /// What submitting the address bar navigates to: the selected
    /// suggestion's URL when the selection points at one, else the typed
    /// text.
    pub open spec fn submitted_text(self) -> Seq<char> {
        match self.selected_suggestion {
            Some(i) => if i < self.suggestions.len() {
                self.suggestions[i as int].url
            } else {
                self.address_text
            },
            None => self.address_text,
        }
    }
}

/// The browser toolbar: address bar, navigation buttons, bookmark toggle,
/// download indicator. A pure state object for any UI layer to render.
pub struct Toolbar {
    address_text: String,
    /// Whether the address bar is focused for editing.
    pub address_focused: bool,
    /// Autocomplete suggestions for the address bar.
    pub suggestions: Vec<AddressSuggestion>,
    /// Index of the currently selected suggestion (if any).
    pub selected_suggestion: Option<usize>,
    /// Back button state.
    pub back: ButtonState,
    /// Forward button state.
    pub forward: ButtonState,
    /// Whether a page is currently loading (controls reload/stop button).
    pub loading: bool,
    /// Whether the current page is bookmarked (filled star vs outline).
    pub is_bookmarked: bool,
    /// Number of active downloads (shown as badge on download button).
    pub active_downloads: usize,
    /// Whether the bookmark bar is visible below the toolbar.
    pub show_bookmark_bar: bool,
}

impl View for Toolbar {
    type V = ToolbarView;

    closed spec fn view(&self) -> ToolbarView {
        ToolbarView {
            address_text: self.address_text@,
            address_focused: self.address_focused,
            suggestions: suggestion_views(self.suggestions@),
            selected_suggestion: self.selected_suggestion,
            back: self.back,
            forward: self.forward,
            loading: self.loading,
            is_bookmarked: self.is_bookmarked,
            active_downloads: self.active_downloads,
            show_bookmark_bar: self.show_bookmark_bar,
        }
    }
}

impl Toolbar {
    /// Create a toolbar with an empty, unfocused address bar, disabled
    /// buttons and the bookmark bar shown.
    pub fn new() -> (t: Toolbar)
        ensures
            t@ == (ToolbarView {
                address_text: Seq::empty(),
                address_focused: false,
                suggestions: Seq::empty(),
                selected_suggestion: None,
                back: ButtonState::Disabled,
                forward: ButtonState::Disabled,
                loading: false,
                is_bookmarked: false,
                active_downloads: 0,
                show_bookmark_bar: true,
            }),
    {
        let t = Toolbar {
            address_text: String::new(),
            address_focused: false,
            suggestions: Vec::new(),
            selected_suggestion: None,
            back: ButtonState::Disabled,
            forward: ButtonState::Disabled,
            loading: false,
            is_bookmarked: false,
            active_downloads: 0,
            show_bookmark_bar: true,
        };
        proof {
            assert(suggestion_views(t.suggestions@) =~= Seq::<AddressSuggestionView>::empty());
        }
        t
    }

    /// The current address bar text.
    pub fn url_bar_text(&self) -> (res: &str)
        ensures
            res@ == self@.address_text,
    {
        self.address_text.as_str()
    }

    /// Show `url` in the address bar, unfocused and without suggestions
    /// (e.g. when navigation completes).
    pub fn set_url(&mut self, url: &Url)
        ensures
            final(self)@ == old(self)@.with_address(url@.text),
    {
        self.address_text = url.to_string();
        self.address_focused = false;
        self.suggestions.clear();
        self.selected_suggestion = None;
        proof {
            assert(suggestion_views(self.suggestions@) =~= Seq::<AddressSuggestionView>::empty());
        }
    }

    /// Update the toolbar from the current tab.
    pub fn sync_with_tab(
        &mut self,
        url: &Url,
        can_go_back: bool,
        can_go_forward: bool,
        loading: bool,
        is_bookmarked: bool,
    )
        ensures
            final(self)@ == (ToolbarView {
                back: ButtonState::spec_from_bool(can_go_back),
                forward: ButtonState::spec_from_bool(can_go_forward),
                loading,
                is_bookmarked,
                ..old(self)@.with_address(url@.text)
            }),
    {
        self.set_url(url);
        self.back = ButtonState::from_bool(can_go_back);
        self.forward = ButtonState::from_bool(can_go_forward);
        self.loading = loading;
        self.is_bookmarked = is_bookmarked;
    }

    /// The user typed `text` into the address bar.
    pub fn handle_input(&mut self, text: &str)
        ensures
            final(self)@ == (ToolbarView { address_text: text@, address_focused: true, ..old(self)@ }),
    {
        self.address_text = text.to_owned();
        self.address_focused = true;
    }

    /// Replace the suggestions and clear the selection.
    pub fn set_suggestions(&mut self, suggestions: Vec<AddressSuggestion>)
        ensures
            final(self)@ == (ToolbarView {
                suggestions: suggestion_views(suggestions@),
                selected_suggestion: None,
                ..old(self)@
            }),
    {
        self.suggestions = suggestions;
        self.selected_suggestion = None;
    }

    /// Select the next suggestion, wrapping to the first.
    pub fn select_next_suggestion(&mut self)
        ensures
            final(self)@ == old(self)@.selected_next(),
    {
        if self.suggestions.len() == 0 {
            return;
        }
        self.selected_suggestion = Some(
            match self.selected_suggestion {
                Some(i) => if i < self.suggestions.len() - 1 {
                    i + 1
                } else {
                    0
                },
                None => 0,
            },
        );
    }

    /// Select the previous suggestion, wrapping to the last.
    pub fn select_prev_suggestion(&mut self)
        ensures
            final(self)@ == old(self)@.selected_prev(),
    {
        if self.suggestions.len() == 0 {
            return;
        }
        self.selected_suggestion = Some(
            match self.selected_suggestion {
                Some(0) => self.suggestions.len() - 1,
                Some(i) => i - 1,
                None => self.suggestions.len() - 1,
            },
        );
    }

    /// Submit the address bar (the user pressed Enter): returns the selected
    /// suggestion's URL, or the typed text; the bar loses focus and its
    /// suggestions.
    pub fn submit_address(&mut self) -> (res: String)
        ensures
            res@ == old(self)@.submitted_text(),
            final(self)@ == (ToolbarView {
                address_focused: false,
                suggestions: Seq::empty(),
                selected_suggestion: None,
                ..old(self)@
            }),
    {
        self.address_focused = false;
        let result = match self.selected_suggestion {
            Some(idx) => if idx < self.suggestions.len() {
                self.suggestions[idx].url.clone()
            } else {
                self.address_text.clone()
            },
            None => self.address_text.clone(),
        };
        self.suggestions.clear();
        self.selected_suggestion = None;
        proof {
            assert(suggestion_views(self.suggestions@) =~= Seq::<AddressSuggestionView>::empty());
        }
        result
    }

    /// Focus the address bar (Cmd+L / Ctrl+L).
    pub fn focus_address_bar(&mut self)
        ensures
            final(self)@ == (ToolbarView { address_focused: true, ..old(self)@ }),
    {
        self.address_focused = true;
    }

    /// Dismiss the address bar (Escape): unfocused, suggestions dropped.
    pub fn dismiss_address_bar(&mut self)
        ensures
            final(self)@ == (ToolbarView {
                address_focused: false,
                suggestions: Seq::empty(),
                selected_suggestion: None,
                ..old(self)@
            }),
    {
        self.address_focused = false;
        self.suggestions.clear();
        self.selected_suggestion = None;
        proof {
            assert(suggestion_views(self.suggestions@) =~= Seq::<AddressSuggestionView>::empty());
        }
    }

    /// Update the active download count.
    pub fn set_active_downloads(&mut self, count: usize)
        ensures
            final(self)@ == (ToolbarView { active_downloads: count, ..old(self)@ }),
    {
        self.active_downloads = count;
    }

    /// Show whether the current page is bookmarked.
    pub fn set_bookmarked(&mut self, bookmarked: bool)
        ensures
            final(self)@ == (ToolbarView { is_bookmarked: bookmarked, ..old(self)@ }),
    {
        self.is_bookmarked = bookmarked;
    }

    /// Toggle the bookmark bar visibility.
    pub fn toggle_bookmark_bar(&mut self)
        ensures
            final(self)@ == (ToolbarView { show_bookmark_bar: !old(self)@.show_bookmark_bar, ..old(self)@ }),
    {
        self.show_bookmark_bar = !self.show_bookmark_bar;
    }
}

impl Default for Toolbar {
    fn default() -> (t: Toolbar)
        ensures
            t@ == (ToolbarView {
                address_text: Seq::empty(),
                address_focused: false,
                suggestions: Seq::empty(),
                selected_suggestion: None,
                back: ButtonState::Disabled,
                forward: ButtonState::Disabled,
                loading: false,
                is_bookmarked: false,
                active_downloads: 0,
                show_bookmark_bar: true,
            }),
    {
        Toolbar::new()
    }
}

/// Moving the selection down keeps it pointing at a suggestion, and so does
/// moving it up.
pub proof fn lemma_selection_stays_in_range(t: ToolbarView)
    requires
        t.selection_in_range(),
    ensures
        t.selected_next().selection_in_range(),
        t.selected_prev().selection_in_range(),
{
}

/// With a selection in range, moving down and then up returns to the same
/// selection, and moving up and then down too.
pub proof fn lemma_next_prev_selection_inverse(t: ToolbarView)
    requires
        t.suggestions.len() > 0,
        t.suggestions.len() <= usize::MAX,
        t.selected_suggestion is Some,
        t.selection_in_range(),
    ensures
        t.selected_next().selected_prev() == t,
        t.selected_prev().selected_next() == t,
{
}

/// Pressing down once per suggestion from a selected suggestion cycles back
/// to it; in particular, with two suggestions, down twice returns to where it
/// started.
pub proof fn lemma_two_suggestions_cycle(t: ToolbarView)
    requires
        t.suggestions.len() == 2,
        t.selected_suggestion is Some,
        t.selection_in_range(),
    ensures
        t.selected_next().selected_next() == t,
{
}

/// Moving down from no selection selects the first suggestion and moving
/// up selects the last; from the last suggestion down goes to the first,
/// from the first up goes to the last, and otherwise the selection moves by
/// one. Only the selection changes, and with no suggestions nothing does.
/// Submitting sends the selected suggestion's URL, else the typed text.
pub proof fn lemma_selection_moves(t: ToolbarView)
    requires
        t.selection_in_range(),
        t.suggestions.len() <= usize::MAX,
    ensures
        t.suggestions.len() == 0 ==> t.selected_next() == t && t.selected_prev() == t,
        t.suggestions.len() > 0 && t.selected_suggestion is None ==> t.selected_next().selected_suggestion
            == Some(0usize) && t.selected_prev().selected_suggestion == Some((t.suggestions.len() - 1) as usize),
        forall|i: usize|
            t.selected_suggestion == Some(i) ==> {
                &&& t.selected_next().selected_suggestion == Some(
                    if i + 1 == t.suggestions.len() { 0usize } else { (i + 1) as usize },
                )
                &&& t.selected_prev().selected_suggestion == Some(
                    if i == 0 { (t.suggestions.len() - 1) as usize } else { (i - 1) as usize },
                )
                &&& t.submitted_text() == t.suggestions[i as int].url
            },
        t.selected_suggestion is None ==> t.submitted_text() == t.address_text,
        t.selected_next().suggestions == t.suggestions && t.selected_next().address_text == t.address_text,
        t.selected_prev().suggestions == t.suggestions && t.selected_prev().address_text == t.address_text,
{
}

} // verus!
