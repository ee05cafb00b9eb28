//! The logic behind a desktop shell that lives in the system tray: the
//! greeting it offers to its front-end, and the rules by which tray clicks and
//! close requests show and hide the main window.

pub mod greeting;
pub mod traces;
pub mod visibility;
