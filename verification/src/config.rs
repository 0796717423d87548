//! Browser configuration: homepage, search engine, content blocking,
//! privacy, sidebar, downloads and permissions, with their defaults.
//!
//! Finding and reading the configuration file, the chrome theme (which holds
//! floating-point sizes) and the home directory are the program's business;
//! the library holds the values the browser logic reads.

use vstd::prelude::*;

use crate::location::{url_encode, url_encoded};
use crate::text::{push_str, replace_all, replaced};

verus! {

/// The homepage used when none is configured.
pub open spec fn default_homepage() -> Seq<char> {
    "about:blank"@
}

/// The search URL template used when none is configured.
pub open spec fn default_search_engine() -> Seq<char> {
    "https://www.google.com/search?q=%s"@
}

/// The placeholder of a search URL template that the encoded query replaces.
pub open spec fn query_placeholder() -> Seq<char> {
    "%s"@
}

/// The download directory under the home directory `home`, or `~/Downloads`
/// when the home directory is unknown.
pub open spec fn download_dir_for(home: Option<Seq<char>>) -> Seq<char> {
    match home {
        Some(h) => h + "/Downloads"@,
        None => "~/Downloads"@,
    }
}

/// Content blocking settings.
#[derive(Debug, Clone)]
pub struct ContentBlockingConfig {
    /// Block third-party cookies.
    pub block_third_party_cookies: bool,
    /// Block known trackers.
    pub block_trackers: bool,
    /// Block ads.
    pub block_ads: bool,
}

/// Privacy settings.
#[derive(Debug, Clone)]
pub struct PrivacyConfig {
    /// Clear browsing data on exit.
    pub clear_on_exit: bool,
    /// Send the Do Not Track header.
    pub do_not_track: bool,
    /// HTTPS-only mode: refuse to load HTTP pages.
    pub https_only: bool,
}

/// Which side the sidebar is displayed on.
#[derive(Debug, Clone, Copy, PartialEq, Eq, Structural)]
pub enum SidebarPosition {
    Left,
    Right,
}

/// Sidebar configuration.
#[derive(Debug, Clone)]
pub struct SidebarConfig {
    /// Whether the sidebar is visible by default.
    pub visible: bool,
    /// Which side the sidebar appears on.
    pub position: SidebarPosition,
    /// Width of the sidebar in pixels.
    pub width: u32,
}

/// Download configuration.
#[derive(Debug, Clone)]
pub struct DownloadConfig {
    /// Default download directory.
    pub directory: String,
    /// Whether to ask the user where to save each download.
    pub ask_location: bool,
}

/// Permission policy for a capability.
#[derive(Debug, Clone, Copy, PartialEq, Eq, Structural)]
pub enum PermissionPolicy {
    Allow,
    Deny,
    Ask,
}

/// Permissions configuration for web capabilities.
#[derive(Debug, Clone)]
pub struct PermissionsConfig {
    /// Geolocation access policy.
    pub geolocation: PermissionPolicy,
    /// Notification permission policy.
    pub notifications: PermissionPolicy,
    /// Camera access policy.
    pub camera: PermissionPolicy,
    /// Microphone access policy.
    pub microphone: PermissionPolicy,
}

/// The configuration the browser logic reads.
#[derive(Debug, Clone)]
pub struct NamimadoConfig {
    /// Homepage URL opened for new tabs and on startup.
    pub homepage: String,
    /// Search engine URL template; `%s` is replaced with the query.
    pub search_engine: String,
    /// Whether developer tools are enabled by default.
    pub devtools_enabled: bool,
    /// Content blocking configuration.
    pub content_blocking: ContentBlockingConfig,
    /// Privacy configuration.
    pub privacy: PrivacyConfig,
    /// Sidebar configuration.
    pub sidebar: SidebarConfig,
    /// Download configuration.
    pub downloads: DownloadConfig,
    /// Permissions configuration.
    pub permissions: PermissionsConfig,
}

impl Default for ContentBlockingConfig {
    /// Third-party cookies and trackers blocked, ads allowed.
    fn default() -> (c: ContentBlockingConfig)
        ensures
            c.block_third_party_cookies,
            c.block_trackers,
            !c.block_ads,
    {
        ContentBlockingConfig { block_third_party_cookies: true, block_trackers: true, block_ads: false }
    }
}

impl Default for PrivacyConfig {
    /// Do Not Track sent; nothing cleared on exit; HTTP allowed.
    fn default() -> (c: PrivacyConfig)
        ensures
            !c.clear_on_exit,
            c.do_not_track,
            !c.https_only,
    {
        PrivacyConfig { clear_on_exit: false, do_not_track: true, https_only: false }
    }
}

impl Default for SidebarConfig {
    /// A hidden left sidebar, 300 pixels wide.
    fn default() -> (c: SidebarConfig)
        ensures
            !c.visible,
            c.position == SidebarPosition::Left,
            c.width == 300,
    {
        SidebarConfig { visible: false, position: SidebarPosition::Left, width: 300 }
    }
}

impl Default for PermissionsConfig {
    /// Geolocation and notifications ask; camera and microphone are denied.
    fn default() -> (c: PermissionsConfig)
        ensures
            c.geolocation == PermissionPolicy::Ask,
            c.notifications == PermissionPolicy::Ask,
            c.camera == PermissionPolicy::Deny,
            c.microphone == PermissionPolicy::Deny,
    {
        PermissionsConfig {
            geolocation: PermissionPolicy::Ask,
            notifications: PermissionPolicy::Ask,
            camera: PermissionPolicy::Deny,
            microphone: PermissionPolicy::Deny,
        }
    }
}

impl DownloadConfig {
    /// The default download settings for a user whose home directory is
    /// `home` (`None` when it is unknown): save to `<home>/Downloads`, or
    /// `~/Downloads`, without asking.
    pub fn in_home(home: Option<&str>) -> (c: DownloadConfig)
        ensures
            c.directory@ == download_dir_for(
                match home {
                    Some(h) => Some(h@),
                    None => None,
                },
            ),
            !c.ask_location,
    {
        let directory = match home {
            Some(h) => {
                let mut d = String::from_str(h);
                push_str(&mut d, "/Downloads");
                d
            },
            None => String::from_str("~/Downloads"),
        };
        DownloadConfig { directory, ask_location: false }
    }
}

impl NamimadoConfig {
    /// The default configuration for a user whose home directory is `home`:
    /// homepage `about:blank`, Google as search engine, developer tools off,
    /// and the default of every section.
    pub fn for_home(home: Option<&str>) -> (c: NamimadoConfig)
        ensures
            c.homepage@ == default_homepage(),
            c.search_engine@ == default_search_engine(),
            !c.devtools_enabled,
            c.content_blocking.block_third_party_cookies,
            c.content_blocking.block_trackers,
            !c.content_blocking.block_ads,
            !c.privacy.clear_on_exit,
            c.privacy.do_not_track,
            !c.privacy.https_only,
            !c.sidebar.visible,
            c.sidebar.position == SidebarPosition::Left,
            c.sidebar.width == 300,
            c.downloads.directory@ == download_dir_for(
                match home {
                    Some(h) => Some(h@),
                    None => None,
                },
            ),
            !c.downloads.ask_location,
            c.permissions.geolocation == PermissionPolicy::Ask,
            c.permissions.notifications == PermissionPolicy::Ask,
            c.permissions.camera == PermissionPolicy::Deny,
            c.permissions.microphone == PermissionPolicy::Deny,
    {
        NamimadoConfig {
            homepage: String::from_str("about:blank"),
            search_engine: String::from_str("https://www.google.com/search?q=%s"),
            devtools_enabled: false,
            content_blocking: ContentBlockingConfig::default(),
            privacy: PrivacyConfig::default(),
            sidebar: SidebarConfig::default(),
            downloads: DownloadConfig::in_home(home),
            permissions: PermissionsConfig::default(),
        }
    }

    /// The search URL for `query`: the search engine template with every
    /// `%s` replaced by the URL-encoded query.
    pub fn search_url(&self, query: &str) -> (res: String)
        ensures
            res@ == replaced(self.search_engine@, query_placeholder(), url_encoded(query@)),
    {
        let encoded = url_encode(query);
        proof {
            reveal_strlit("%s");
        }
        replace_all(self.search_engine.as_str(), "%s", encoded.as_str())
    }
}

} // verus!
