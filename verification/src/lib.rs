//! Decision logic of a single-shot clipboard saver: what the clipboard holds,
//! where it goes, in which format it is written, and what is reported.
//!
//! Nothing here touches the clipboard, a dialog or the file system. A driver
//! performs each [`session::Action`] and hands the answer back as a
//! [`session::Event`].

pub mod content;
pub mod format;
pub mod laws;
pub mod outcome;
pub mod path;
pub mod picker;
pub mod report;
pub mod session;
pub mod text;
