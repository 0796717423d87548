use namimado::config::{
    ContentBlockingConfig, DownloadConfig, NamimadoConfig, PermissionPolicy, PermissionsConfig,
    PrivacyConfig, SidebarConfig, SidebarPosition,
};

#[test]
fn default_config_is_valid() {
    let config = NamimadoConfig::for_home(Some("/home/user"));
    assert_eq!(config.homepage, "about:blank");
    assert!(config.search_engine.contains("%s"));
    assert!(!config.devtools_enabled);
}

#[test]
fn sidebar_config_defaults() {
    let config = SidebarConfig::default();
    assert!(!config.visible);
    assert_eq!(config.position, SidebarPosition::Left);
    assert_eq!(config.width, 300);
}

#[test]
fn download_config_defaults() {
    let config = DownloadConfig::in_home(Some("/home/user"));
    assert!(!config.ask_location);
    assert!(config.directory.contains("Downloads"));
}

#[test]
fn permissions_config_defaults() {
    let config = PermissionsConfig::default();
    assert_eq!(config.geolocation, PermissionPolicy::Ask);
    assert_eq!(config.camera, PermissionPolicy::Deny);
}

#[test]
fn search_url_encoding() {
    let config = NamimadoConfig::for_home(Some("/home/user"));
    let url = config.search_url("rust programming");
    assert!(url.contains("google.com"));
    assert!(url.contains("rust"));
}

#[test]
fn search_url_exact() {
    let config = NamimadoConfig::for_home(None);
    assert_eq!(config.search_url("rust programming"), "https://www.google.com/search?q=rust%20programming");
    assert_eq!(config.search_url("a&b=c"), "https://www.google.com/search?q=a%26b%3Dc");
}

#[test]
fn search_url_replaces_every_placeholder() {
    let mut config = NamimadoConfig::for_home(None);
    config.search_engine = "https://s.example/?q=%s&again=%s&pct=%%s".into();
    assert_eq!(config.search_url("x y"), "https://s.example/?q=x%20y&again=x%20y&pct=%x%20y");
}

#[test]
fn search_url_without_placeholder_is_the_template() {
    let mut config = NamimadoConfig::for_home(None);
    config.search_engine = "https://plain.example/".into();
    assert_eq!(config.search_url("q"), "https://plain.example/");
}

#[test]
fn download_dir_without_home() {
    assert_eq!(DownloadConfig::in_home(None).directory, "~/Downloads");
    assert_eq!(DownloadConfig::in_home(Some("/h")).directory, "/h/Downloads");
}

#[test]
fn other_section_defaults() {
    let c = ContentBlockingConfig::default();
    assert!(c.block_third_party_cookies && c.block_trackers && !c.block_ads);
    let p = PrivacyConfig::default();
    assert!(!p.clear_on_exit && p.do_not_track && !p.https_only);
    let perms = PermissionsConfig::default();
    assert_eq!(perms.notifications, PermissionPolicy::Ask);
    assert_eq!(perms.microphone, PermissionPolicy::Deny);
}
