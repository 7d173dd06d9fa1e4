//! Verified core of the Void emulator desktop suite: the encodings, the
//! on-disk layout, the version fallback and the step-by-step installation
//! and setup procedures.  The code that touches the outside world (processes,
//! files, HTTP, the window toolkit) lives in the `app/` crate and hands this
//! library plain values.
pub mod text;
pub mod encoding;
pub mod decimal;
pub mod version;
pub mod layout;
pub mod emulator;
pub mod registry;
pub mod download;
pub mod installer;
pub mod install_flow;
pub mod setup;
pub mod setup_flow;
pub mod search;
