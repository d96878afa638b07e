//! Command building, output parsing and multi-step plans for driving `adb`
//! against Android devices, with the text handling they rest on.

pub mod text;
pub mod command;
pub mod args;
pub mod devices;
pub mod foreground;
pub mod scripts;
pub mod step;
pub mod uninstall;
pub mod deletion;
pub mod backup;
pub mod restore;
pub mod tools;
pub mod unpack;
pub mod laws;
