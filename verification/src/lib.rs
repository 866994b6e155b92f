//! The bookkeeping behind a small desk for watching a directory: names for new
//! files, the list of files created so far, the single watch and its switch from
//! one directory to the next, and the log of change notifications.
//!
//! Nothing here touches the file system or the watcher. The program around the
//! library does that work and hands every outcome back.

pub mod events;
pub mod files;
pub mod names;
pub mod paths;
pub mod shell;
pub mod watch;
