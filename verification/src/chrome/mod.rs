pub mod sidebar;
pub mod statusbar;
pub mod toolbar;
