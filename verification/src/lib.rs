//! Core logic of a small network-connected indicator controller.
//!
//! The crate keeps a radio link alive across repeated failures
//! (`supervisor`), exposes connectivity as a shared level signal
//! (`status`), gates periodic per-indicator work on that signal (`task`),
//! and renders a stochastic "flicker" brightness curve for each indicator
//! (`flicker`). Deployment-time configuration is modelled and validated in
//! `config`; the remote state lookup an indicator polls is modelled in
//! `homeassistant`.

pub mod config;
pub mod flicker;
pub mod homeassistant;
pub mod secure_string;
pub mod status;
pub mod supervisor;
pub mod task;
