//! Decisions of a Bluetooth tray utility that drives a command-line control
//! tool: which arguments to run the tool with, how to read what it prints,
//! and what the tray menu shows. Running the tool and drawing the menu are
//! left to the caller.

pub mod control;
pub mod device;
pub mod menu;
pub mod text;
