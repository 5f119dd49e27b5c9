//! Capabilities: named facts about the local machine, each established by
//! one request to the host.

pub mod app_detector;
pub mod detector;
pub mod helix;
pub mod mac_app;
pub mod oh_my_zsh;
pub mod vscode;
pub mod wezterm;
pub mod which;
pub mod yazi;
