//! The interactive layer: screen state machines, the shared form widget,
//! and the top-level application state. Everything here is a pure function
//! of state and key input; the thin outer shell reads the terminal, draws,
//! and performs the storage effects the state machine requests.

pub mod key;
pub mod action;
pub mod form;
pub mod status_bar;
pub mod app;
pub mod export;
pub mod help;
pub mod log_create;
pub mod log_select;
pub mod qso_entry;
pub mod qso_list;

pub use action::{Action, Screen};
pub use app::{App, Effect};
pub use key::Key;
