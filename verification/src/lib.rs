//! The logic of the Nohrs file-manager shell: which pages exist, how the
//! navigation reacts to commands, and the declarative settings framework
//! that exposes application state as a tree of editable, resettable fields.
//!
//! Everything here is plain data and pure decisions. Drawing, windows and
//! the event loop belong to the hosting application.

pub mod icon;
pub mod pages;
pub mod setting;
pub mod ui;
