//! Menu and event dispatcher for a desktop application shell.
//!
//! The library owns the two pieces of structured behaviour of the shell: the
//! static menu tree, built once at startup with a stable identifier and an
//! optional keyboard accelerator on every activatable item, and the dispatch
//! rule that turns the activation of a menu item into an action: broadcast one
//! named event carrying the identifier, terminate the process, or do nothing
//! for an identifier the table does not know.

pub mod dispatch;
pub mod menu;
