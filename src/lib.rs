//! Platform-independent coordination core of a desktop UI shell: handle
//! registries, a cooperative run loop, the message dispatcher, the window
//! manager with its lifecycle and geometry reconciliation, the menu diff
//! engine and the drag session coordinator.
pub mod cell;
pub mod constants;
pub mod context;
pub mod dispatcher;
pub mod drag;
pub mod engine;
pub mod error;
pub mod handle;
pub mod menu;
pub mod menu_manager;
pub mod routing;
pub mod run_loop;
pub mod structs;
pub mod window;
pub mod window_manager;
pub mod window_base;
