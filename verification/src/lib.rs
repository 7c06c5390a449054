//! The logic of a small desktop shell: the native menu bar it installs at
//! startup, and the decision it takes when a menu item is activated or the
//! user interface invokes its one command.
//!
//! Nothing here touches a window or the process. The menu is plain data that
//! the host converts into its own menu type, and every reaction is returned
//! as a [`dispatch::Effect`] for the host to perform.

pub mod dispatch;
pub mod event;
pub mod ident;
pub mod menu;
pub mod text;
