//! Decisions of a desktop companion for Linux: which windows a KWin session
//! shows, and how a newer wrapper build is applied to the installed application.

pub mod apply;
pub mod disk_image;
pub mod install_type;
pub mod packaged;
pub mod paths;
pub mod state;
pub mod text;
pub mod user_local;
pub mod version;
pub mod window_id;
pub mod window_listing;
pub mod windows;
pub mod wrapper_source;
