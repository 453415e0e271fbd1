//! The decisions of a small launcher for a companion console program,
//! kept apart from the file system, the console and the process table.
//!
//! The launcher looks for the companion executable beside itself, makes sure
//! that a configuration directory and a default configuration file exist,
//! and starts the companion. Everything it wants done outside its own memory
//! it asks for as a [`protocol::Request`]; whatever answers it hands back a
//! [`protocol::Reply`]. What the launcher asks for, in which order, and what
//! it prints is decided here and proved here.

pub mod disk;
pub mod launch;
pub mod machine;
pub mod names;
pub mod protocol;
pub mod provision;
pub mod text;
pub mod theorems;
