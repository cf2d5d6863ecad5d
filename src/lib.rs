//! Automation of a long-lived interactive terminal program: settling of its
//! output stream, removal of terminal control sequences, the driver's
//! session rules, a shared registry with exactly-once teardown, and the
//! workflow recommendations of the program's help tool.
pub mod ansi;
pub mod driver;
pub mod error;
pub mod help;
pub mod reader;
pub mod registry;
pub mod source;
pub mod text;
