//! Launch description for the bundled livelove language server.
//!
//! The library decides where the server script is expected, how the command
//! line that starts it looks, and which options it is started with. Reading
//! the file system and asking the editor for a script runtime are left to the
//! caller, who passes in what was found.

pub mod command;
pub mod extension;
pub mod options;
pub mod path;
