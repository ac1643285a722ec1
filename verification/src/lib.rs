//! Runtime machinery for a pluggable status-bar module system.
//!
//! A *module* pairs a UI widget with an asynchronous controller, connected by
//! message channels. This crate holds the verified core of that machinery:
//! the command protocol a controller interprets, the popup open/close state
//! machine, the controller lifecycle, the non-blocking channel discipline,
//! and the recursive widget/module composition model used to build nested
//! UI trees from configuration.

pub mod channels;
pub mod command;
pub mod controller;
pub mod events;
pub mod modules;
pub mod orientation;
pub mod popup;
pub mod widgets;
