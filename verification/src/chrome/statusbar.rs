//! The status bar: security indicator, status and hover text, and whether a
//! page is loading.

use vstd::prelude::*;

use crate::location::Url;
use crate::text::{push_str, str_eq};

verus! {

/// Security level of the current page.
#[derive(Debug, Clone, Copy, PartialEq, Eq, Structural)]
pub enum SecurityLevel {
    /// The page is loaded over HTTPS with a valid certificate.
    Secure,
    /// The page is loaded over HTTP (no encryption).
    Insecure,
    /// The page has mixed content (HTTPS page with HTTP subresources).
    Mixed,
    /// Internal page (about:blank, etc.).
    Internal,
}

impl SecurityLevel {
    /// The security level of a page with URL scheme `scheme`.
    pub open spec fn of_scheme(scheme: Seq<char>) -> SecurityLevel {
        if scheme == "https"@ {
            SecurityLevel::Secure
        } else if scheme == "http"@ {
            SecurityLevel::Insecure
        } else if scheme == "about"@ || scheme == "data"@ {
            SecurityLevel::Internal
        } else {
            SecurityLevel::Insecure
        }
    }

    /// The label shown for the level.
    pub open spec fn spec_label(self) -> Seq<char> {
        match self {
            SecurityLevel::Secure => "Secure"@,
            SecurityLevel::Insecure => "Not Secure"@,
            SecurityLevel::Mixed => "Mixed Content"@,
            SecurityLevel::Internal => ""@,
        }
    }

    /// Determine the security level from a URL's scheme.
    pub fn from_url(url: &Url) -> (level: SecurityLevel)
        ensures
            level == SecurityLevel::of_scheme(url@.scheme),
    {
        let s = url.scheme();
        if str_eq(s, "https") {
            SecurityLevel::Secure
        } else if str_eq(s, "http") {
            SecurityLevel::Insecure
        } else if str_eq(s, "about") || str_eq(s, "data") {
            SecurityLevel::Internal
        } else {
            SecurityLevel::Insecure
        }
    }

    /// A human-readable label for the security level.
    pub fn label(self) -> (res: &'static str)
        ensures
            res@ == self.spec_label(),
    {
        match self {
            SecurityLevel::Secure => "Secure",
            SecurityLevel::Insecure => "Not Secure",
            SecurityLevel::Mixed => "Mixed Content",
            SecurityLevel::Internal => "",
        }
    }
}

/// The bottom status bar. `progress` holds the load progress as the bit
/// pattern of an `f32` fraction (`f32::to_bits`), or `None` when not loading;
/// a load starts at the pattern of 0.0, which is 0.
pub struct StatusBar {
    /// Current loading progress (bits of an `f32` in 0.0..=1.0), or `None`
    /// if not loading.
    pub progress: Option<u32>,
    /// Security level of the current page.
    pub security: SecurityLevel,
    /// Hover link target — shows the URL the cursor is hovering over.
    pub hover_url: Option<String>,
    /// Status text (e.g., "Connecting...", "Transferring data...").
    pub status_text: Option<String>,
}

/// The model of the status bar.
pub struct StatusBarView {
    pub progress: Option<u32>,
    pub security: SecurityLevel,
    pub hover_url: Option<Seq<char>>,
    pub status_text: Option<Seq<char>>,
}

impl View for StatusBar {
    type V = StatusBarView;

    open spec fn view(&self) -> StatusBarView {
        StatusBarView {
            progress: self.progress,
            security: self.security,
            hover_url: crate::browser::bookmark::opt_view(self.hover_url),
            status_text: crate::browser::bookmark::opt_view(self.status_text),
        }
    }
}

/// The status text while a page with host `host` loads.
pub open spec fn loading_text(host: Option<Seq<char>>) -> Seq<char> {
    "Loading "@ + match host {
        Some(h) => h,
        None => Seq::empty(),
    } + "..."@
}

impl StatusBarView {
    /// The text shown: the hovered link, else the status text, else nothing.
    pub open spec fn shown_text(self) -> Seq<char> {
        match self.hover_url {
            Some(h) => h,
            None => match self.status_text {
                Some(s) => s,
                None => Seq::empty(),
            },
        }
    }
}

impl StatusBar {
    /// An idle status bar for an internal page.
    pub fn new() -> (b: StatusBar)
        ensures
            b@ == (StatusBarView {
                progress: None,
                security: SecurityLevel::Internal,
                hover_url: None,
                status_text: None,
            }),
    {
        StatusBar { progress: None, security: SecurityLevel::Internal, hover_url: None, status_text: None }
    }

    /// A page load started: progress starts at 0.0, the security level
    /// follows the URL and the status reads "Loading <host>...".
    pub fn on_load_start(&mut self, url: &Url)
        ensures
            final(self)@ == (StatusBarView {
                progress: Some(0),
                security: SecurityLevel::of_scheme(url@.scheme),
                status_text: Some(loading_text(url@.host)),
                ..old(self)@
            }),
    {
        self.progress = Some(0);
        self.security = SecurityLevel::from_url(url);
        let mut text = String::from_str("Loading ");
        match url.host_str() {
            Some(h) => push_str(&mut text, h),
            None => {},
        }
        push_str(&mut text, "...");
        proof {
            assert(text@ =~= loading_text(url@.host));
        }
        self.status_text = Some(text);
    }

    /// A page load finished: no progress, no status text.
    pub fn on_load_end(&mut self, url: &Url)
        ensures
            final(self)@ == (StatusBarView {
                progress: None,
                security: SecurityLevel::of_scheme(url@.scheme),
                status_text: None,
                ..old(self)@
            }),
    {
        self.progress = None;
        self.security = SecurityLevel::from_url(url);
        self.status_text = None;
    }

    /// Set or clear the hovered link.
    pub fn set_hover_url(&mut self, url: Option<String>)
        ensures
            final(self)@ == (StatusBarView {
                hover_url: crate::browser::bookmark::opt_view(url),
                ..old(self)@
            }),
    {
        self.hover_url = url;
    }

    /// The text to display in the status bar.
    pub fn display_text(&self) -> (res: &str)
        ensures
            res@ == self@.shown_text(),
    {
        match &self.hover_url {
            Some(h) => h.as_str(),
            None => match &self.status_text {
                Some(s) => s.as_str(),
                None => {
                    proof {
                        reveal_strlit("");
                    }
                    ""
                },
            },
        }
    }
}

impl Default for StatusBar {
    fn default() -> (b: StatusBar)
        ensures
            b@ == (StatusBarView {
                progress: None,
                security: SecurityLevel::Internal,
                hover_url: None,
                status_text: None,
            }),
    {
        StatusBar::new()
    }
}


/// An https page is secure, an http page is not, and about and data pages
/// are internal; each level has its label.
pub proof fn lemma_security_of_scheme(scheme: Seq<char>)
    ensures
        scheme == "https"@ ==> SecurityLevel::of_scheme(scheme) == SecurityLevel::Secure,
        scheme == "http"@ ==> SecurityLevel::of_scheme(scheme) == SecurityLevel::Insecure,
        scheme == "about"@ ==> SecurityLevel::of_scheme(scheme) == SecurityLevel::Internal,
        scheme == "data"@ ==> SecurityLevel::of_scheme(scheme) == SecurityLevel::Internal,
        SecurityLevel::of_scheme(scheme) != SecurityLevel::Mixed,
        SecurityLevel::Secure.spec_label() == "Secure"@,
        SecurityLevel::Insecure.spec_label() == "Not Secure"@,
{
    reveal_strlit("https");
    reveal_strlit("http");
    reveal_strlit("about");
    reveal_strlit("data");
    assert("https"@.len() == 5 && "http"@.len() == 4 && "about"@.len() == 5 && "data"@.len() == 4);
    assert("https"@[0] == 'h' && "about"@[0] == 'a' && "http"@[0] == 'h' && "data"@[0] == 'd');
}

} // verus!
