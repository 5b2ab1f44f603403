//! voice_input: a lightweight background voice-input tool.
//!
//! Architecture rule: `Business Logic != OS API != UI != Network`.
//! This library holds the decision-making parts (the application state
//! machine and the controller that executes its effects, hotkey parsing and
//! debouncing, credential priority, display-server detection, the overlay's
//! state view, request and response shaping for the transcription API) and
//! the boundary traits that the OS, network and UI adapters implement.

pub mod app;
pub mod audio;
pub mod input;
pub mod platform;
pub mod transcription;
pub mod ui;
pub mod clock;
pub mod config;
pub mod doubles;
pub mod hotkey;
pub mod text;
