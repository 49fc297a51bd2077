//! The replay buffer of a screen recorder: while a window that the user has named is on
//! the screen, its last seconds are kept on disk, and on request they are saved as a
//! clip.
//!
//! The recorder writes short media segments. [`segments`] keeps track of them and says
//! which files are no longer needed, [`clip`] chooses the segments of a clip, and
//! [`targets`] finds the window to record. What the program does over time, in steps
//! between which files, windows and recordings are dealt with, is decided in
//! [`manager`], [`session`], [`saving`] and [`materialize`]: each decision is a function
//! from what is known so far to what is to be done next.
//!
//! The modules whose names end in `_laws` hold what is true of several of these
//! functions together.

pub mod clip;
pub mod clip_laws;
pub mod manager;
pub mod manager_laws;
pub mod materialize;
pub mod materialize_laws;
pub mod paths;
pub mod saving;
pub mod saving_laws;
pub mod segment_laws;
pub mod segments;
pub mod session;
pub mod settings;
pub mod settings_laws;
pub mod target_laws;
pub mod targets;
pub mod text;
