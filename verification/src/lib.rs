//! A lock-screen and greeter core: the slanted clock, the key-driven login
//! state machine, PAM result classification and the session environment.
pub mod cli;
pub mod clock;
pub mod greeter;
pub mod pam;
pub mod scrambler;
pub mod session;
pub mod text;

pub use clock::{render_slanted_clock, render_unslanted_clock, slant_grid};
pub use pam::PamError;
pub use scrambler::Scrambler;
