//! The decisions behind a command-line front end to the `bindgen` generator.
//!
//! The front end reads its flags, replaces `@file` arguments by the words of
//! the named files, tells the generator what to emit, and writes the result.
//! Everything that is decided along the way lives here, on plain values; the
//! program around this library only parses the command line, touches the file
//! system and calls the generator.

pub mod codegen;
pub mod error;
pub mod response;
pub mod expansion;
pub mod request;
pub mod driver;
pub mod run;
