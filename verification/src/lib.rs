//! A keyboard-shortcut reference for a tiling desktop shell.
//!
//! The crate holds the parts of the viewer that do not depend on a GUI
//! toolkit: the built-in catalog of shortcuts ([`catalog`]), the width that
//! its key rows need ([`sizing`]), the layout that a rendering layer turns
//! into widgets ([`presentation`]), and the rules of the context drawer
//! ([`context`]). Every function is verified with Verus against the contract
//! written on it.

pub mod catalog;
pub mod context;
pub mod presentation;
pub mod sizing;

pub use crate::catalog::{get_shortcuts, Category, Shortcut};
pub use crate::context::{
    update, ContextDrawer, ContextPage, Effect, MenuAction, Message, REPOSITORY,
};
pub use crate::presentation::{
    render_categories, render_keys, render_shortcuts, CategoryPanel, KeyRow, ShortcutRow,
    ShortcutTable, KEY_SLOT_WIDTH,
};
pub use crate::sizing::{get_max_keys, max_keys_of};
