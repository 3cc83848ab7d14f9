//! Relocation: the steps that take one planned photo to its destination.
//!
//! The file system is not touched here. `move_photo` says what has to be done next, given
//! what was done so far; whoever drives it does the work and comes back with the result.
//! A destination that already exists is overwritten: relocation never asks whether it does.

use vstd::pervasive::unreached;
use vstd::prelude::*;
use vstd::string::*;
use crate::error::{PsError, PsErrorKind, PsErrorView};
use crate::path::{parent, parent_of};
use crate::photo::{Photo, PhotoView};

verus! {

/// Why a photo was left where it is without an attempt to relocate it.
#[derive(Clone, Copy, Debug, PartialEq, Eq, Structural)]
pub enum SkipReason {
    /// The photo has no capture date.
    DateUnresolved,
    /// The photo's path has no file name.
    NoFileName,
}

/// How the work on one photo ended.
#[derive(Debug, PartialEq, Eq)]
pub enum RelocationOutcome {
    /// The photo is at its destination, or would be if this were no dry run.
    Succeeded,
    /// No destination was planned for the photo.
    Skipped(SkipReason),
    /// The photo could not be relocated.
    Failed(PsError),
}

/// How the work on one photo ended, as plain values.
pub enum RelocationOutcomeView {
    Succeeded,
    Skipped(SkipReason),
    Failed(PsErrorView),
}

impl View for RelocationOutcome {
    type V = RelocationOutcomeView;

    open spec fn view(&self) -> RelocationOutcomeView {
        match self {
            RelocationOutcome::Succeeded => RelocationOutcomeView::Succeeded,
            RelocationOutcome::Skipped(reason) => RelocationOutcomeView::Skipped(*reason),
            RelocationOutcome::Failed(error) => RelocationOutcomeView::Failed(error@),
        }
    }
}

/// What has been done so far to relocate a photo.
#[derive(Debug, PartialEq, Eq)]
pub enum MoveProgress {
    /// Nothing yet.
    NotStarted,
    /// The parent directory of the destination exists.
    DirectoryReady,
    /// The parent directory of the destination could not be created, for the given reason.
    DirectoryFailed(String),
    /// The photo was copied or renamed.
    Transferred,
    /// The photo could not be copied or renamed, for the given reason.
    TransferFailed(String),
}

/// What has been done so far to relocate a photo, as plain values.
pub enum MoveProgressView {
    NotStarted,
    DirectoryReady,
    DirectoryFailed(Seq<char>),
    Transferred,
    TransferFailed(Seq<char>),
}

impl View for MoveProgress {
    type V = MoveProgressView;

    open spec fn view(&self) -> MoveProgressView {
        match self {
            MoveProgress::NotStarted => MoveProgressView::NotStarted,
            MoveProgress::DirectoryReady => MoveProgressView::DirectoryReady,
            MoveProgress::DirectoryFailed(reason) => MoveProgressView::DirectoryFailed(reason@),
            MoveProgress::Transferred => MoveProgressView::Transferred,
            MoveProgress::TransferFailed(reason) => MoveProgressView::TransferFailed(reason@),
        }
    }
}

/// What has to be done next to relocate a photo.
#[derive(Debug, PartialEq, Eq)]
pub enum MoveStep {
    /// Make sure that the directory exists, creating it and all that is missing above it.
    CreateDirectories { dir: String },
    /// Rename the file `from` to `to`.
    Rename { from: String, to: String },
    /// Copy the file `from` to `to`, and leave `from` as it is.
    Copy { from: String, to: String },
    /// Nothing: the work on the photo has ended.
    Done(RelocationOutcome),
}

/// What has to be done next to relocate a photo, as plain values.
pub enum MoveStepView {
    CreateDirectories { dir: Seq<char> },
    Rename { from: Seq<char>, to: Seq<char> },
    Copy { from: Seq<char>, to: Seq<char> },
    Done(RelocationOutcomeView),
}

impl View for MoveStep {
    type V = MoveStepView;

    open spec fn view(&self) -> MoveStepView {
        match self {
            MoveStep::CreateDirectories { dir } => MoveStepView::CreateDirectories { dir: dir@ },
            MoveStep::Rename { from, to } => MoveStepView::Rename { from: from@, to: to@ },
            MoveStep::Copy { from, to } => MoveStepView::Copy { from: from@, to: to@ },
            MoveStep::Done(outcome) => MoveStepView::Done(outcome@),
        }
    }
}

/// What a photo is told when its destination has no parent directory.
pub open spec fn no_parent_message(dest: Seq<char>) -> Seq<char> {
    "No parent directory for "@ + dest
}

/// The failure of one photo, as plain values.
pub open spec fn failed(kind: PsErrorKind, msg: Seq<char>) -> MoveStepView {
    MoveStepView::Done(RelocationOutcomeView::Failed(PsErrorView { kind, msg }))
}

/// The next step in relocating the photo read from `source` to `dest`.
///
/// 1. The parent directory of the destination has to exist. A destination without a parent
///    fails at once.
/// 2. A parent directory that cannot be created fails the photo.
/// 3. A dry run ends here, as a success.
/// 4. Otherwise the photo is renamed or copied, as `move_file` says.
/// 5. A rename or copy that fails is the photo's failure; one that succeeds, its success.
pub open spec fn next_step(
    source: Seq<char>,
    dest: Seq<char>,
    move_file: bool,
    dry_run: bool,
    progress: MoveProgressView,
) -> MoveStepView {
    match progress {
        MoveProgressView::NotStarted => match parent_of(dest) {
            Some(dir) => MoveStepView::CreateDirectories { dir },
            None => failed(PsErrorKind::PathError, no_parent_message(dest)),
        },
        MoveProgressView::DirectoryFailed(reason) => failed(
            PsErrorKind::DirectoryCreateError,
            reason,
        ),
        MoveProgressView::DirectoryReady => if dry_run {
            MoveStepView::Done(RelocationOutcomeView::Succeeded)
        } else if move_file {
            MoveStepView::Rename { from: source, to: dest }
        } else {
            MoveStepView::Copy { from: source, to: dest }
        },
        MoveProgressView::TransferFailed(reason) => failed(PsErrorKind::RelocationError, reason),
        MoveProgressView::Transferred => MoveStepView::Done(RelocationOutcomeView::Succeeded),
    }
}

/// Says what has to be done next to relocate `photo` to its planned destination, given what
/// was done so far.
///
/// Only a photo with a planned destination can be relocated.
pub fn move_photo(photo: &Photo, move_file: bool, dry_run: bool, progress: MoveProgress) -> (step:
    MoveStep)
    requires
        photo@.new_path is Some,
    ensures
        step@ == next_step(photo@.path, photo@.new_path->0, move_file, dry_run, progress@),
{
    let dest = match photo.new_path() {
        Some(dest) => dest,
        None => unreached(),
    };
    match progress {
        MoveProgress::NotStarted => match parent(dest) {
            Some(dir) => MoveStep::CreateDirectories { dir },
            None => {
                let mut msg = String::from_str("No parent directory for ");
                msg.append(dest);
                MoveStep::Done(
                    RelocationOutcome::Failed(PsError::new(PsErrorKind::PathError, msg)),
                )
            },
        },
        MoveProgress::DirectoryFailed(reason) => MoveStep::Done(
            RelocationOutcome::Failed(PsError::new(PsErrorKind::DirectoryCreateError, reason)),
        ),
        MoveProgress::DirectoryReady => if dry_run {
            MoveStep::Done(RelocationOutcome::Succeeded)
        } else if move_file {
            MoveStep::Rename { from: String::from_str(photo.path()), to: String::from_str(dest) }
        } else {
            MoveStep::Copy { from: String::from_str(photo.path()), to: String::from_str(dest) }
        },
        MoveProgress::TransferFailed(reason) => MoveStep::Done(
            RelocationOutcome::Failed(PsError::new(PsErrorKind::RelocationError, reason)),
        ),
        MoveProgress::Transferred => MoveStep::Done(RelocationOutcome::Succeeded),
    }
}

} // verus!
