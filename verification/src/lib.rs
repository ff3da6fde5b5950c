//! Decisions of a one-shot command that turns a compiled executable into a
//! raw binary image and copies the image to an output directory.
//!
//! The command itself reads the file system and runs an object-copy tool;
//! this library holds what it decides in between: which paths it derives,
//! how it judges the tool's result, what it reports, and in which order the
//! steps follow one another.
//!
//! - [`args`]: both arguments are required.
//! - [`paths`]: the derived binary path and the destination of the copy.
//! - [`convert`]: the command line of the tool and the verdict on its run.
//! - [`report`]: the line that tells the size of the image.
//! - [`error`]: the failures and their messages.
//! - [`pipeline`]: the run as a state machine over all of these.
//! - [`traces`]: theorems about whole runs.
//!
//! The image is produced next to the executable and is left there when the
//! run is over; only a copy goes to the output directory.

pub mod args;
pub mod convert;
pub mod error;
pub mod paths;
pub mod pipeline;
pub mod report;
pub mod traces;
