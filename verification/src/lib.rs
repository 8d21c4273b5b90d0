//! Decision logic of a desktop weather overlay.
//!
//! The overlay shows the weather of one place in a small window next to the
//! taskbar, or prints it where there is no window.  This library holds what
//! the program decides; what it does to the outside world is left to the
//! program that embeds the library.
//!
//! - [`location`] settles the place from the command line and the
//!   configuration file, or refuses to start.
//! - [`scheduler`] says when the weather is fetched and what becomes of each
//!   result, in each of the three ways the program can run.
//! - [`presentation`] is the boundary to the display surface, which may be
//!   gone by the time a result arrives.
//! - [`platform`] places the window beside the taskbar and hides it from the
//!   task switcher, and words the weather for a program without a window.
//! - [`query`] builds the request to the weather service and reads its
//!   answer.
//! - [`cli`], [`config`] and [`text`] hold the arguments, the texts about the
//!   configuration file, and the text helpers the others share.

pub mod cli;
pub mod config;
pub mod location;
pub mod platform;
pub mod presentation;
pub mod query;
pub mod scheduler;
pub mod text;
