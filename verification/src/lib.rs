//! Window visibility coordinator for the Glimt tray application.
//!
//! The desktop shell owns two named windows ("main" and "capture"), a tray
//! icon and a three-entry tray menu.  Every behaviour of the shell is a small
//! decision: given an external stimulus (a menu selection, a tray-icon click,
//! a close request) and the current state of the windows, issue a short
//! sequence of window commands.  This crate states and verifies those
//! decisions.  The host process performs the lookups and the commands; the
//! functions here compute, with proved contracts, exactly which commands are
//! owed for every stimulus.

pub mod actions;
pub mod events;
pub mod coordinator;
pub mod menu;
pub mod text;
