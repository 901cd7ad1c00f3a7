//! Core logic of a small screenshot tool: the user settings, the crop
//! selection with its edge dragging rules, and the menu texts.

pub mod settings_manager;
pub mod utility;
pub mod selection;
pub mod menus;
