//! The drag source of a macOS view.
pub mod callback;
pub mod context;
pub mod contexts;
pub mod error;
pub mod event;
pub mod laws;
pub mod operation;
pub mod session;
pub mod start;
