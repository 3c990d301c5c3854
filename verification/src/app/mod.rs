//! Application layer — the UI-agnostic state machine: state, actions, and
//! the reducer that folds every action into a state change plus a side
//! effect for the runtime to perform.

pub mod action;
pub mod delete;
pub mod fetch;
pub mod filter;
pub mod guarantees;
pub mod state;
pub mod toast;
pub mod update;

pub use action::Action;
pub use filter::Filter;
pub use state::{AppState, Command, InputMode, PendingDelete};
pub use toast::{Toast, ToastKind};
