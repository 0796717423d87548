pub mod tab;
pub mod tabs;
pub mod navigation;
pub mod history;
pub mod bookmark;
pub mod bytes_format;
pub mod download;
