//! A window-visibility and input-capture controller.
//!
//! The library models the window registry of a GUI host as plain data and
//! verifies the two operations a front-end can invoke on it: showing the
//! well-known "main" window and grabbing the cursor for it. The host itself
//! (window system, event loop, invocation transport) stays outside; the
//! outcome of each host primitive enters the controller as a value, and the
//! controller's effect on the registry and its returned result are proved
//! for every such outcome.

pub mod controller;
pub mod registry;
