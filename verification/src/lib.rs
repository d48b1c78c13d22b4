//! Environment variables as the installed shells see them.
//!
//! A shell that a program starts often skips the files that set up the environment of
//! an interactive session. This library holds the rules by which a small program, the
//! extractor, is delivered to the temporary folder, verified, run inside a shell, and
//! by which what it prints is read. It touches no file and starts no process itself:
//! it says what is to be done and is told how it went.

pub mod assets;
pub mod checksum;
pub mod decoder;
pub mod delivery;
pub mod encoder;
pub mod envmap;
pub mod error;
pub mod extractor;
pub mod keys;
pub mod literal;
pub mod packaging;
pub mod platform;
pub mod profiles;
pub mod text;

pub use envmap::EnvironmentMap;
pub use error::Error;
pub use extractor::Extractor;
pub use platform::Platform;
pub use profiles::{get as get_profiles, Profile};
