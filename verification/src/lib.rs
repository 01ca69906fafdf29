//! Verified command logic for a desktop-automation agent: the role
//! vocabulary, the commands' decisions, and the macOS inventory and menu
//! logic, each over plain values that a platform layer reads and acts on.
pub mod text;
pub mod roles;
pub mod ax_roles;
pub mod error;
pub mod node;
pub mod system;
pub mod adapter;
pub mod helpers;
pub mod search_text;
pub mod find;
pub mod is_check;
pub mod menu;
pub mod menu_bar;
pub mod controls;
pub mod platform_control;
pub mod focus_window;
pub mod snapshot;
pub mod apps;
pub mod app_inventory;
pub mod window_inventory;
pub mod app_ops;
pub mod resolve_policy;
