//! The state and the rules behind a small demonstration panel: a plot whose
//! settings are edited through a context menu, and a fixed tree of nested menus.
//!
//! Nothing here draws. A front end shows the widgets, reports what the user did
//! as a [`MenuEvent`], and is told in return whether the menu it is showing has
//! to close.

pub mod demo;
pub mod menu;
pub mod pixels;
pub mod plot;
pub mod settings;

pub use demo::ContextMenus;
pub use menu::{nested_menus, MenuEntry};
pub use pixels::Pixels;
pub use plot::Plot;
pub use settings::{ContextMenusData, Flag, MenuAction, MenuEvent};
