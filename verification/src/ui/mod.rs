//! The pure state behind the terminal screens: selection indices, input
//! modes, and the mailbox the widgets pass results through. The drawing
//! and event plumbing live outside the library.

pub mod pipe;
pub mod screens;
pub mod widgets;
