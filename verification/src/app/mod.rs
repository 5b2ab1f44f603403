//! The application state machine and the controller that runs its effects.

pub mod controller;
pub mod state;
