//! Sorts media files into a dated directory tree.
//!
//! Every photo or video is filed under the day on which it was captured:
//! `<root>/<year>/<month>/<day>/<name>`. The library plans the destinations and decides,
//! step by step, what a run has to do; it leaves reading metadata and touching the file
//! system to whoever drives it.

pub mod config;
pub mod date;
pub mod decimal;
pub mod discovery;
pub mod error;
pub mod path;
pub mod photo;
pub mod pipeline;
pub mod planner;
pub mod relocate;
pub mod text;

pub use config::Config;
pub use date::CaptureDate;
pub use discovery::{source_kind, Candidate, Entry, SourceKind, Unpacked};
pub use error::{PsError, PsErrorKind};
pub use photo::Photo;
pub use pipeline::{convert_files, Action, Event, Phase, Run, Summary};
pub use planner::{dated_path, plan, update_new_path, update_photo_new_path};
pub use relocate::{move_photo, MoveProgress, MoveStep, RelocationOutcome, SkipReason};
