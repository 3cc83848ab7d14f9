//! The run: discovery, planning and relocation of every photo, one step at a time.
//!
//! A run neither reads nor writes anything itself. `convert_files` takes the result of the
//! last action and says which action comes next; whoever drives the run performs it and
//! calls again. The phases follow one another in a fixed order and never go back:
//! `Start`, `Discovering`, `Planning`, `Relocating`, `Summarized`.
//!
//! Discovery lists the source and every directory below it, or unpacks the archive, and
//! asks for the capture date of every candidate that it finds. Planning gives every photo
//! with a capture date its destination. Relocation takes the photos there one by one.
//!
//! What cannot be read below the source is left out with a warning. What goes wrong with
//! one photo is reported for that photo and counted; the run goes on with the next one.
//! Only a source that cannot be read at all ends the run early.

use vstd::pervasive::unreached;
use vstd::prelude::*;
use vstd::string::*;
use crate::config::{Config, ConfigView};
use crate::date::CaptureDate;
use crate::discovery::{
    candidate_views, dirs_in, entry_views, files_in, is_archive_name, named_in, nameless_in,
    photo_of, photo_view, sort_entries, sort_unpacked, source_kind, unpacked_views,
    unreadable_in, Candidate, CandidateView, Entry, EntryView, SourceKind, Unpacked, UnpackedView,
};
use crate::error::{PsError, PsErrorKind, PsErrorView};
use crate::path::parent_of;
use crate::photo::{Photo, PhotoView};
use crate::planner::{lemma_planning_keeps_photo, planned, update_new_path};
use crate::relocate::{
    move_photo, next_step, MoveProgress, MoveProgressView, MoveStep, MoveStepView,
    RelocationOutcome, RelocationOutcomeView, SkipReason,
};
use crate::text::{opt_text, texts};

verus! {

/// The phases of a run, in their order.
#[derive(Clone, Copy, Debug, PartialEq, Eq, Structural)]
pub enum Phase {
    /// Nothing has happened yet.
    Start,
    /// The source is being read, and the capture date of what is found in it.
    Discovering,
    /// The photos are known; their destinations are not.
    Planning,
    /// The photos are taken to their destinations, one after the other.
    Relocating,
    /// The run has ended.
    Summarized,
}

/// What the run is waiting for.
#[derive(Clone, Copy, Debug, PartialEq, Eq, Structural)]
pub enum Stage {
    /// Nothing.
    Idle,
    /// The listing of the source directory.
    AwaitingRoot,
    /// The listing of a directory below the source.
    AwaitingListing,
    /// The unpacked entries of the archive.
    AwaitingArchive,
    /// The capture date of the next candidate.
    AwaitingDate,
    /// The parent directory of the current photo's destination.
    AwaitingDirectory,
    /// The rename or the copy of the current photo.
    AwaitingTransfer,
}

/// How many photos ended in which way.
#[derive(Clone, Copy, Debug, PartialEq, Eq, Structural)]
pub struct Summary {
    pub succeeded: usize,
    pub skipped: usize,
    pub failed: usize,
}

/// How many photos ended in which way, as plain numbers.
pub struct SummaryView {
    pub succeeded: nat,
    pub skipped: nat,
    pub failed: nat,
}

impl View for Summary {
    type V = SummaryView;

    open spec fn view(&self) -> SummaryView {
        SummaryView {
            succeeded: self.succeeded as nat,
            skipped: self.skipped as nat,
            failed: self.failed as nat,
        }
    }
}

impl SummaryView {
    /// How many photos the summary counts.
    pub open spec fn total(self) -> nat {
        self.succeeded + self.skipped + self.failed
    }

    /// The summary after one more photo ended with `outcome`.
    pub open spec fn count(self, outcome: RelocationOutcomeView) -> SummaryView {
        match outcome {
            RelocationOutcomeView::Succeeded => SummaryView {
                succeeded: self.succeeded + 1,
                ..self
            },
            RelocationOutcomeView::Skipped(_) => SummaryView { skipped: self.skipped + 1, ..self },
            RelocationOutcomeView::Failed(_) => SummaryView { failed: self.failed + 1, ..self },
        }
    }
}

/// What the driver of a run reports back.
///
/// Only a failure is ever held against an action: any other event counts as its success.
/// A listing, unpacked entries and a capture date count only as the answer to the action
/// that asks for them; any other answer to it stands for an empty listing, an empty
/// archive or a missing date.
#[derive(Debug)]
pub enum Event {
    /// The last action was performed.
    Done,
    /// The last action failed, for the given reason.
    Failed(String),
    /// The directory was listed, and this is what it holds.
    Listed(Vec<Entry>),
    /// The archive was unpacked, and these are its entries.
    Unpacked(Vec<Unpacked>),
    /// The metadata of the file was read, and gave this capture date or none.
    Dated(Option<CaptureDate>),
}

/// What the driver of a run reports back, as plain values.
pub enum EventView {
    Done,
    Failed(Seq<char>),
    Listed(Seq<EntryView>),
    Unpacked(Seq<UnpackedView>),
    Dated(Option<CaptureDate>),
}

impl View for Event {
    type V = EventView;

    open spec fn view(&self) -> EventView {
        match self {
            Event::Done => EventView::Done,
            Event::Failed(reason) => EventView::Failed(reason@),
            Event::Listed(entries) => EventView::Listed(entry_views(entries@)),
            Event::Unpacked(entries) => EventView::Unpacked(unpacked_views(entries@)),
            Event::Dated(date) => EventView::Dated(*date),
        }
    }
}

/// What each of the photos holds.
pub open spec fn photo_views(photos: Seq<Photo>) -> Seq<PhotoView> {
    Seq::new(photos.len(), |i: int| photos[i]@)
}

/// What the driver of a run has to do next.
#[derive(Debug, PartialEq, Eq)]
pub enum Action {
    /// List the directory: report each of its entries as a file, a directory or something
    /// else, or as unreadable.
    ListDirectory { dir: String },
    /// Unpack the archive: report each of its files with the temporary file that holds it.
    Unpack { archive: String },
    /// Read the metadata of the file and report the capture date that it gives.
    ResolveDate { path: String },
    /// Tell that something could not be read and was left out.
    Warn { reason: String },
    /// Tell that `found` photos were discovered.
    Announce { found: usize },
    /// Tell that the destinations are planned and `total` photos are about to be relocated.
    Begin { total: usize },
    /// Make sure that the directory exists, creating it and all that is missing above it.
    CreateDirectories { dir: String },
    /// Rename the file `from` to `to`.
    Rename { from: String, to: String },
    /// Copy the file `from` to `to`, and leave `from` as it is.
    Copy { from: String, to: String },
    /// Tell how the work on the photo at `index` ended.
    Report { index: usize, source: String, destination: Option<String>, outcome: RelocationOutcome },
    /// Tell that every photo was attempted. The run has ended.
    Finish { summary: Summary },
    /// Tell that the source could not be read. The run has ended.
    Abort { error: PsError },
}

/// What the driver of a run has to do next, as plain values.
pub enum ActionView {
    ListDirectory { dir: Seq<char> },
    Unpack { archive: Seq<char> },
    ResolveDate { path: Seq<char> },
    Warn { reason: Seq<char> },
    Announce { found: nat },
    Begin { total: nat },
    CreateDirectories { dir: Seq<char> },
    Rename { from: Seq<char>, to: Seq<char> },
    Copy { from: Seq<char>, to: Seq<char> },
    Report {
        index: nat,
        source: Seq<char>,
        destination: Option<Seq<char>>,
        outcome: RelocationOutcomeView,
    },
    Finish { summary: SummaryView },
    Abort { error: PsErrorView },
}

impl View for Action {
    type V = ActionView;

    open spec fn view(&self) -> ActionView {
        match self {
            Action::ListDirectory { dir } => ActionView::ListDirectory { dir: dir@ },
            Action::Unpack { archive } => ActionView::Unpack { archive: archive@ },
            Action::ResolveDate { path } => ActionView::ResolveDate { path: path@ },
            Action::Warn { reason } => ActionView::Warn { reason: reason@ },
            Action::Announce { found } => ActionView::Announce { found: *found as nat },
            Action::Begin { total } => ActionView::Begin { total: *total as nat },
            Action::CreateDirectories { dir } => ActionView::CreateDirectories { dir: dir@ },
            Action::Rename { from, to } => ActionView::Rename { from: from@, to: to@ },
            Action::Copy { from, to } => ActionView::Copy { from: from@, to: to@ },
            Action::Report { index, source, destination, outcome } => ActionView::Report {
                index: *index as nat,
                source: source@,
                destination: opt_text(*destination),
                outcome: outcome@,
            },
            Action::Finish { summary } => ActionView::Finish { summary: summary@ },
            Action::Abort { error } => ActionView::Abort { error: error@ },
        }
    }
}

/// A run as plain values.
pub struct RunView {
    pub config: ConfigView,
    pub phase: Phase,
    pub stage: Stage,
    /// The directories that are still to be listed. The last one comes next.
    pub pending: Seq<Seq<char>>,
    /// Why things were left out of the discovery, in the order in which they were met.
    pub warnings: Seq<Seq<char>>,
    /// How many of the warnings were told.
    pub warned: nat,
    /// The media files that were discovered, in the order in which they were met.
    pub candidates: Seq<CandidateView>,
    /// The candidates whose capture date was asked for, in the same order.
    pub photos: Seq<PhotoView>,
    /// How many photos the run is done with.
    pub cursor: nat,
    pub summary: SummaryView,
    /// Why the run ended early, if it did.
    pub fatal: Option<PsErrorView>,
}

impl RunView {
    /// What holds of a run at every moment.
    pub open spec fn inv(self) -> bool {
        &&& self.cursor <= self.photos.len() <= self.candidates.len()
        &&& self.warned <= self.warnings.len()
        &&& self.summary.total() == self.cursor
        &&& forall|i: int|
            0 <= i < self.photos.len() ==> {
                &&& (#[trigger] self.photos[i]).wf()
                &&& self.photos[i].path == self.candidates[i].path
                &&& self.photos[i].original_name == self.candidates[i].original_name
            }
        &&& self.phase is Start || self.stage is AwaitingRoot || self.stage is AwaitingArchive
            ==> self.candidates.len() == 0 && self.pending.len() == 0 && self.warnings.len() == 0
        &&& self.phase is Start || self.phase is Discovering ==> self.cursor == 0
        &&& self.phase is Start || self.phase is Planning || self.phase is Summarized
            ==> self.stage is Idle
        &&& self.phase is Discovering ==> !(self.stage is AwaitingDirectory) && !(self.stage
            is AwaitingTransfer)
        &&& self.phase is Relocating ==> self.stage is Idle || self.stage is AwaitingDirectory
            || self.stage is AwaitingTransfer
        &&& self.stage is AwaitingDate ==> self.photos.len() < self.candidates.len()
        &&& self.stage is AwaitingDirectory || self.stage is AwaitingTransfer ==> self.cursor
            < self.photos.len() && self.photos[self.cursor as int].new_path is Some
        &&& self.phase is Planning || self.phase is Relocating || self.phase is Summarized
            ==> self.discovered()
        &&& self.fatal is Some ==> self.phase is Summarized && self.candidates.len() == 0
        &&& self.phase is Summarized ==> self.cursor == self.photos.len()
    }

    /// Whether nothing waits to be listed, told or dated.
    pub open spec fn discovered(self) -> bool {
        self.pending.len() == 0 && self.warned == self.warnings.len() && self.photos.len()
            == self.candidates.len()
    }

    /// A run that has not started.
    pub open spec fn initial(config: ConfigView) -> RunView {
        RunView {
            config,
            phase: Phase::Start,
            stage: Stage::Idle,
            pending: Seq::empty(),
            warnings: Seq::empty(),
            warned: 0,
            candidates: Seq::empty(),
            photos: Seq::empty(),
            cursor: 0,
            summary: SummaryView { succeeded: 0, skipped: 0, failed: 0 },
            fatal: None,
        }
    }
}

/// The place of a phase in the order of the phases.
pub open spec fn phase_rank(phase: Phase) -> int {
    match phase {
        Phase::Start => 0,
        Phase::Discovering => 1,
        Phase::Planning => 2,
        Phase::Relocating => 3,
        Phase::Summarized => 4,
    }
}

/// The kind of source that a name stands for.
pub open spec fn kind_of(source: Seq<char>) -> SourceKind {
    if is_archive_name(source) {
        SourceKind::Archive
    } else {
        SourceKind::Directory
    }
}

/// The run ends because its source cannot be read.
pub open spec fn abort(run: RunView, reason: Seq<char>) -> (RunView, ActionView) {
    let error = PsErrorView { kind: PsErrorKind::DiscoveryError, msg: reason };
    (
        RunView { phase: Phase::Summarized, stage: Stage::Idle, fatal: Some(error), ..run },
        ActionView::Abort { error },
    )
}

/// The run takes in the listing of a directory: its regular files are candidates, its
/// directories wait to be listed, and what could not be read in it is a warning.
pub open spec fn listed(run: RunView, entries: Seq<EntryView>) -> RunView {
    RunView {
        candidates: run.candidates + files_in(entries),
        pending: run.pending + dirs_in(entries),
        warnings: run.warnings + unreadable_in(entries),
        ..run
    }
}

/// The run takes in the unpacked entries of an archive: those with a file name are
/// candidates, and each of the others is a warning.
pub open spec fn unpacked(run: RunView, entries: Seq<UnpackedView>) -> RunView {
    RunView {
        candidates: run.candidates + named_in(entries),
        warnings: run.warnings + nameless_in(entries),
        ..run
    }
}

/// The run takes in the capture date of the next candidate, which becomes a photo.
pub open spec fn dated(run: RunView, date: Option<CaptureDate>) -> RunView {
    RunView {
        photos: run.photos.push(photo_view(run.candidates[run.photos.len() as int], date)),
        ..run
    }
}

/// What a run that is discovering does next, once it has taken in the last answer: it
/// tells the next warning; else it lists the next directory; else it asks for the capture
/// date of the next candidate; and when nothing of this is left, discovery is over.
pub open spec fn discover_next(run: RunView) -> (RunView, ActionView) {
    if run.warned < run.warnings.len() {
        (
            RunView { warned: run.warned + 1, stage: Stage::Idle, ..run },
            ActionView::Warn { reason: run.warnings[run.warned as int] },
        )
    } else if run.pending.len() > 0 {
        (
            RunView { pending: run.pending.drop_last(), stage: Stage::AwaitingListing, ..run },
            ActionView::ListDirectory { dir: run.pending.last() },
        )
    } else if run.photos.len() < run.candidates.len() {
        (
            RunView { stage: Stage::AwaitingDate, ..run },
            ActionView::ResolveDate { path: run.candidates[run.photos.len() as int].path },
        )
    } else {
        (
            RunView { phase: Phase::Planning, stage: Stage::Idle, ..run },
            ActionView::Announce { found: run.photos.len() },
        )
    }
}

/// One step of a run that is discovering.
///
/// A source that cannot be listed or unpacked ends the run. A directory below the source
/// that cannot be listed is left out with a warning, and so is every entry that cannot be
/// read: discovery goes on with what is left.
pub open spec fn discover_step(run: RunView, event: EventView) -> (RunView, ActionView) {
    match run.stage {
        Stage::AwaitingRoot => match event {
            EventView::Failed(reason) => abort(run, reason),
            EventView::Listed(entries) => discover_next(listed(run, entries)),
            _ => discover_next(run),
        },
        Stage::AwaitingArchive => match event {
            EventView::Failed(reason) => abort(run, reason),
            EventView::Unpacked(entries) => discover_next(unpacked(run, entries)),
            _ => discover_next(run),
        },
        Stage::AwaitingListing => match event {
            EventView::Failed(reason) => discover_next(
                RunView { warnings: run.warnings.push(reason), ..run },
            ),
            EventView::Listed(entries) => discover_next(listed(run, entries)),
            _ => discover_next(run),
        },
        Stage::AwaitingDate => if run.photos.len() < run.candidates.len() {
            match event {
                EventView::Dated(date) => discover_next(dated(run, date)),
                _ => discover_next(dated(run, None)),
            }
        } else {
            discover_next(run)
        },
        _ => discover_next(run),
    }
}

/// Every photo with its destination below `root` planned, under its own name.
pub open spec fn plan_all(root: Seq<char>, photos: Seq<PhotoView>) -> Seq<PhotoView> {
    Seq::new(photos.len(), |i: int| planned(root, photos[i], photos[i].original_name))
}

/// Why a photo without a destination has none.
pub open spec fn skip_reason(photo: PhotoView) -> SkipReason {
    if photo.date is None {
        SkipReason::DateUnresolved
    } else {
        SkipReason::NoFileName
    }
}

/// What was done so far for the current photo, given the result of the last action.
pub open spec fn progress_of(stage: Stage, event: EventView) -> MoveProgressView {
    match stage {
        Stage::AwaitingDirectory => match event {
            EventView::Failed(reason) => MoveProgressView::DirectoryFailed(reason),
            _ => MoveProgressView::DirectoryReady,
        },
        Stage::AwaitingTransfer => match event {
            EventView::Failed(reason) => MoveProgressView::TransferFailed(reason),
            _ => MoveProgressView::Transferred,
        },
        _ => MoveProgressView::NotStarted,
    }
}

/// The work on the current photo ends with `outcome`: it is counted and reported, and the
/// next photo becomes the current one.
pub open spec fn report(run: RunView, outcome: RelocationOutcomeView) -> (RunView, ActionView) {
    let photo = run.photos[run.cursor as int];
    (
        RunView {
            cursor: run.cursor + 1,
            stage: Stage::Idle,
            summary: run.summary.count(outcome),
            ..run
        },
        ActionView::Report {
            index: run.cursor,
            source: photo.path,
            destination: photo.new_path,
            outcome,
        },
    )
}

/// The run takes the step that relocation asks for.
pub open spec fn follow(run: RunView, step: MoveStepView) -> (RunView, ActionView) {
    match step {
        MoveStepView::CreateDirectories { dir } => (
            RunView { stage: Stage::AwaitingDirectory, ..run },
            ActionView::CreateDirectories { dir },
        ),
        MoveStepView::Rename { from, to } => (
            RunView { stage: Stage::AwaitingTransfer, ..run },
            ActionView::Rename { from, to },
        ),
        MoveStepView::Copy { from, to } => (
            RunView { stage: Stage::AwaitingTransfer, ..run },
            ActionView::Copy { from, to },
        ),
        MoveStepView::Done(outcome) => report(run, outcome),
    }
}

/// One step of a run that is relocating.
///
/// When no photo is left the run ends. A photo without a destination is skipped and never
/// handed to relocation. Any other photo takes the next step of its relocation.
pub open spec fn relocate_step(run: RunView, event: EventView) -> (RunView, ActionView) {
    if run.cursor >= run.photos.len() {
        (
            RunView { phase: Phase::Summarized, stage: Stage::Idle, ..run },
            ActionView::Finish { summary: run.summary },
        )
    } else {
        let photo = run.photos[run.cursor as int];
        match photo.new_path {
            None => report(run, RelocationOutcomeView::Skipped(skip_reason(photo))),
            Some(dest) => follow(
                run,
                next_step(
                    photo.path,
                    dest,
                    !run.config.copy,
                    run.config.dry_run,
                    progress_of(run.stage, event),
                ),
            ),
        }
    }
}

/// One step of a run: the run after the event, and the action that it asks for.
pub open spec fn step(run: RunView, event: EventView) -> (RunView, ActionView) {
    match run.phase {
        Phase::Start => match kind_of(run.config.source) {
            SourceKind::Directory => (
                RunView { phase: Phase::Discovering, stage: Stage::AwaitingRoot, ..run },
                ActionView::ListDirectory { dir: run.config.source },
            ),
            SourceKind::Archive => (
                RunView { phase: Phase::Discovering, stage: Stage::AwaitingArchive, ..run },
                ActionView::Unpack { archive: run.config.source },
            ),
        },
        Phase::Discovering => discover_step(run, event),
        Phase::Planning => (
            RunView {
                phase: Phase::Relocating,
                photos: plan_all(run.config.destination, run.photos),
                ..run
            },
            ActionView::Begin { total: run.photos.len() },
        ),
        Phase::Relocating => relocate_step(run, event),
        Phase::Summarized => (
            run,
            match run.fatal {
                Some(error) => ActionView::Abort { error },
                None => ActionView::Finish { summary: run.summary },
            },
        ),
    }
}

/// One run over one source.
pub struct Run {
    config: Config,
    phase: Phase,
    stage: Stage,
    pending: Vec<String>,
    warnings: Vec<String>,
    warned: usize,
    candidates: Vec<Candidate>,
    photos: Vec<Photo>,
    cursor: usize,
    summary: Summary,
    fatal: Option<PsError>,
}

impl View for Run {
    type V = RunView;

    closed spec fn view(&self) -> RunView {
        RunView {
            config: self.config@,
            phase: self.phase,
            stage: self.stage,
            pending: texts(self.pending@),
            warnings: texts(self.warnings@),
            warned: self.warned as nat,
            candidates: candidate_views(self.candidates@),
            photos: photo_views(self.photos@),
            cursor: self.cursor as nat,
            summary: self.summary@,
            fatal: match self.fatal {
                Some(error) => Some(error@),
                None => None,
            },
        }
    }
}

impl Run {
    #[verifier::type_invariant]
    closed spec fn wf(self) -> bool {
        self@.inv()
    }

    /// A run with the given settings, which has not started.
    pub fn new(config: Config) -> (run: Run)
        ensures
            run@ == RunView::initial(config@),
            run@.inv(),
    {
        let run = Run {
            config,
            phase: Phase::Start,
            stage: Stage::Idle,
            pending: Vec::new(),
            warnings: Vec::new(),
            warned: 0,
            candidates: Vec::new(),
            photos: Vec::new(),
            cursor: 0,
            summary: Summary { succeeded: 0, skipped: 0, failed: 0 },
            fatal: None,
        };
        assert(run@.photos =~= Seq::empty());
        assert(run@.candidates =~= Seq::empty());
        assert(run@.warnings =~= Seq::empty());
        run
    }

    /// The settings of the run.
    pub fn config(&self) -> (config: &Config)
        ensures
            config@ == self@.config,
    {
        &self.config
    }

    /// The phase that the run is in.
    pub fn phase(&self) -> (phase: Phase)
        ensures
            phase == self@.phase,
    {
        self.phase
    }

    /// The media files that were discovered so far.
    pub fn candidates(&self) -> (candidates: &Vec<Candidate>)
        ensures
            candidate_views(candidates@) == self@.candidates,
    {
        &self.candidates
    }

    /// The candidates whose capture date was asked for: after discovery, all of them.
    pub fn photos(&self) -> (photos: &Vec<Photo>)
        ensures
            photo_views(photos@) == self@.photos,
    {
        &self.photos
    }

    /// How many photos ended in which way so far. The counts add up to the number of
    /// photos that the run is done with; when the run has ended, that is every candidate
    /// that was discovered.
    pub fn summary(&self) -> (summary: Summary)
        ensures
            summary@ == self@.summary,
            summary@.total() == self@.cursor,
            self@.phase is Summarized ==> summary@.total() == self@.candidates.len(),
    {
        proof {
            use_type_invariant(self);
        }
        self.summary
    }
}

/// Counts one more photo that ended with `outcome`.
fn count_outcome(summary: Summary, outcome: &RelocationOutcome) -> (counted: Summary)
    requires
        summary@.total() < usize::MAX,
    ensures
        counted@ == summary@.count(outcome@),
{
    match outcome {
        RelocationOutcome::Succeeded => Summary { succeeded: summary.succeeded + 1, ..summary },
        RelocationOutcome::Skipped(_) => Summary { skipped: summary.skipped + 1, ..summary },
        RelocationOutcome::Failed(_) => Summary { failed: summary.failed + 1, ..summary },
    }
}

/// Ends a run whose source cannot be read.
fn abort_run(config: Config, reason: String) -> (next: (Run, Action))
    ensures
        (next.0@, next.1@) == abort(
            RunView { phase: Phase::Discovering, ..RunView::initial(config@) },
            reason@,
        ),
        next.0@.inv(),
{
    let error = PsError::new(PsErrorKind::DiscoveryError, reason.clone());
    let run = Run {
        config,
        phase: Phase::Summarized,
        stage: Stage::Idle,
        pending: Vec::new(),
        warnings: Vec::new(),
        warned: 0,
        candidates: Vec::new(),
        photos: Vec::new(),
        cursor: 0,
        summary: Summary { succeeded: 0, skipped: 0, failed: 0 },
        fatal: Some(PsError::new(PsErrorKind::DiscoveryError, reason)),
    };
    assert(run@.photos =~= Seq::empty());
    assert(run@.candidates =~= Seq::empty());
    assert(run@.warnings =~= Seq::empty());
    (run, Action::Abort { error })
}

/// A run that is discovering and waits for nothing, with the given parts.
spec fn discovering(
    config: ConfigView,
    pending: Seq<String>,
    warnings: Seq<String>,
    warned: usize,
    candidates: Seq<Candidate>,
    photos: Seq<Photo>,
) -> RunView {
    RunView {
        config,
        phase: Phase::Discovering,
        stage: Stage::Idle,
        pending: texts(pending),
        warnings: texts(warnings),
        warned: warned as nat,
        candidates: candidate_views(candidates),
        photos: photo_views(photos),
        cursor: 0,
        summary: SummaryView { succeeded: 0, skipped: 0, failed: 0 },
        fatal: None,
    }
}

/// Says what a run that is discovering does next, once it has taken in the last answer.
fn continue_discovery(
    config: Config,
    pending: Vec<String>,
    warnings: Vec<String>,
    warned: usize,
    candidates: Vec<Candidate>,
    photos: Vec<Photo>,
) -> (next: (Run, Action))
    requires
        discovering(config@, pending@, warnings@, warned, candidates@, photos@).inv(),
    ensures
        (next.0@, next.1@) == discover_next(
            discovering(config@, pending@, warnings@, warned, candidates@, photos@),
        ),
        next.0@.inv(),
{
    let mut pending = pending;
    let summary = Summary { succeeded: 0, skipped: 0, failed: 0 };
    let phase = Phase::Discovering;
    if warned < warnings.len() {
        let reason = warnings[warned].clone();
        let run = Run {
            config,
            phase,
            stage: Stage::Idle,
            pending,
            warnings,
            warned: warned + 1,
            candidates,
            photos,
            cursor: 0,
            summary,
            fatal: None,
        };
        (run, Action::Warn { reason })
    } else if pending.len() > 0 {
        let ghost before = pending@;
        let dir = match pending.pop() {
            Some(dir) => dir,
            None => unreached(),
        };
        assert(texts(pending@) =~= texts(before).drop_last());
        let run = Run {
            config,
            phase,
            stage: Stage::AwaitingListing,
            pending,
            warnings,
            warned,
            candidates,
            photos,
            cursor: 0,
            summary,
            fatal: None,
        };
        (run, Action::ListDirectory { dir })
    } else if photos.len() < candidates.len() {
        let path = candidates[photos.len()].path.clone();
        let run = Run {
            config,
            phase,
            stage: Stage::AwaitingDate,
            pending,
            warnings,
            warned,
            candidates,
            photos,
            cursor: 0,
            summary,
            fatal: None,
        };
        (run, Action::ResolveDate { path })
    } else {
        let found = photos.len();
        let run = Run {
            config,
            phase: Phase::Planning,
            stage: Stage::Idle,
            pending,
            warnings,
            warned,
            candidates,
            photos,
            cursor: 0,
            summary,
            fatal: None,
        };
        (run, Action::Announce { found })
    }
}

/// Takes a run one step further: given the result of the last action, says which action
/// comes next.
///
/// The first call starts the run, whatever the event. The run has ended when the action is
/// `Finish` or `Abort`; further calls repeat that action.
pub fn convert_files(run: Run, event: Event) -> (next: (Run, Action))
    ensures
        (next.0@, next.1@) == step(run@, event@),
        run@.inv(),
        next.0@.inv(),
{
    proof {
        use_type_invariant(&run);
    }
    match run.phase {
        Phase::Start => {
            let source = run.config.source.clone();
            match source_kind(run.config.source.as_str()) {
                SourceKind::Directory => (
                    Run { phase: Phase::Discovering, stage: Stage::AwaitingRoot, ..run },
                    Action::ListDirectory { dir: source },
                ),
                SourceKind::Archive => (
                    Run { phase: Phase::Discovering, stage: Stage::AwaitingArchive, ..run },
                    Action::Unpack { archive: source },
                ),
            }
        },
        Phase::Discovering => discover(run, event),
        Phase::Planning => {
            let ghost found = run.photos@;
            let ghost root = run.config.destination@;
            let Run {
                config,
                phase,
                stage,
                pending,
                warnings,
                warned,
                candidates,
                mut photos,
                cursor,
                summary,
                fatal,
            } = run;
            update_new_path(&config.destination, &mut photos);
            let total = photos.len();
            proof {
                assert(photo_views(photos@) =~= plan_all(root, photo_views(found)));
                assert forall|i: int| 0 <= i < photos@.len() implies {
                    &&& (#[trigger] photo_views(photos@)[i]).wf()
                    &&& photo_views(photos@)[i].path == candidate_views(candidates@)[i].path
                    &&& photo_views(photos@)[i].original_name == candidate_views(
                        candidates@,
                    )[i].original_name
                } by {
                    photos@[i].lemma_planned_has_date();
                    lemma_planning_keeps_photo(
                        root,
                        photo_views(found)[i],
                        photo_views(found)[i].original_name,
                    );
                }
            }
            let next = Run {
                config,
                phase: Phase::Relocating,
                stage,
                pending,
                warnings,
                warned,
                candidates,
                photos,
                cursor,
                summary,
                fatal,
            };
            (next, Action::Begin { total })
        },
        Phase::Relocating => relocate(run, event),
        Phase::Summarized => {
            let action = match &run.fatal {
                Some(error) => Action::Abort { error: PsError::new(error.kind, error.msg.clone()) },
                None => Action::Finish { summary: run.summary },
            };
            (run, action)
        },
    }
}

/// Takes a run that is discovering one step further.
fn discover(run: Run, event: Event) -> (next: (Run, Action))
    requires
        run@.phase is Discovering,
    ensures
        (next.0@, next.1@) == discover_step(run@, event@),
        next.0@.inv(),
{
    proof {
        use_type_invariant(&run);
    }
    let ghost before = run@;
    let Run {
        config,
        phase,
        stage,
        mut pending,
        mut warnings,
        warned,
        mut candidates,
        mut photos,
        cursor,
        summary,
        fatal,
    } = run;
    match stage {
        Stage::AwaitingRoot => match event {
            Event::Failed(reason) => {
                assert(before.photos =~= Seq::empty());
                assert(before.candidates =~= Seq::empty());
                assert(before.pending =~= Seq::empty());
                assert(before.warnings =~= Seq::empty());
                return abort_run(config, reason);
            },
            Event::Listed(entries) => {
                sort_entries(&entries, &mut candidates, &mut pending, &mut warnings);
            },
            _ => {},
        },
        Stage::AwaitingArchive => match event {
            Event::Failed(reason) => {
                assert(before.photos =~= Seq::empty());
                assert(before.candidates =~= Seq::empty());
                assert(before.pending =~= Seq::empty());
                assert(before.warnings =~= Seq::empty());
                return abort_run(config, reason);
            },
            Event::Unpacked(entries) => {
                sort_unpacked(&entries, &mut candidates, &mut warnings);
            },
            _ => {},
        },
        Stage::AwaitingListing => match event {
            Event::Failed(reason) => {
                let ghost told = warnings@;
                warnings.push(reason);
                assert(texts(warnings@) =~= texts(told).push(reason@));
            },
            Event::Listed(entries) => {
                sort_entries(&entries, &mut candidates, &mut pending, &mut warnings);
            },
            _ => {},
        },
        Stage::AwaitingDate => {
            if photos.len() < candidates.len() {
                let date = match event {
                    Event::Dated(date) => date,
                    _ => None,
                };
                let ghost dated_before = photos@;
                let photo = photo_of(&candidates[photos.len()], date);
                proof {
                    photo.lemma_planned_has_date();
                }
                photos.push(photo);
                assert(photo_views(photos@) =~= photo_views(dated_before).push(photo@));
            }
        },
        _ => {},
    }
    continue_discovery(config, pending, warnings, warned, candidates, photos)
}

/// Takes a run that is relocating one step further.
fn relocate(run: Run, event: Event) -> (next: (Run, Action))
    requires
        run@.phase is Relocating,
    ensures
        (next.0@, next.1@) == relocate_step(run@, event@),
        next.0@.inv(),
{
    proof {
        use_type_invariant(&run);
    }
    if run.cursor >= run.photos.len() {
        let summary = run.summary;
        return (
            Run { phase: Phase::Summarized, stage: Stage::Idle, ..run },
            Action::Finish { summary },
        );
    }
    let photo = &run.photos[run.cursor];
    let destination = match photo.new_path() {
        Some(dest) => Some(String::from_str(dest)),
        None => None,
    };
    let move_step = if destination.is_none() {
        let reason = if photo.date().is_none() {
            SkipReason::DateUnresolved
        } else {
            SkipReason::NoFileName
        };
        MoveStep::Done(RelocationOutcome::Skipped(reason))
    } else {
        let progress = match run.stage {
            Stage::AwaitingDirectory => match event {
                Event::Failed(reason) => MoveProgress::DirectoryFailed(reason),
                _ => MoveProgress::DirectoryReady,
            },
            Stage::AwaitingTransfer => match event {
                Event::Failed(reason) => MoveProgress::TransferFailed(reason),
                _ => MoveProgress::Transferred,
            },
            _ => MoveProgress::NotStarted,
        };
        move_photo(photo, run.config.move_file(), run.config.dry_run, progress)
    };
    match move_step {
        MoveStep::CreateDirectories { dir } => (
            Run { stage: Stage::AwaitingDirectory, ..run },
            Action::CreateDirectories { dir },
        ),
        MoveStep::Rename { from, to } => (
            Run { stage: Stage::AwaitingTransfer, ..run },
            Action::Rename { from, to },
        ),
        MoveStep::Copy { from, to } => (
            Run { stage: Stage::AwaitingTransfer, ..run },
            Action::Copy { from, to },
        ),
        MoveStep::Done(outcome) => {
            let index = run.cursor;
            let source = String::from_str(photo.path());
            let counted = count_outcome(run.summary, &outcome);
            (
                Run { stage: Stage::Idle, cursor: index + 1, summary: counted, ..run },
                Action::Report { index, source, destination, outcome },
            )
        },
    }
}

/// The run after a sequence of events, each answered by one step.
pub open spec fn after(run: RunView, events: Seq<EventView>) -> RunView
    decreases events.len(),
{
    if events.len() == 0 {
        run
    } else {
        after(step(run, events[0]).0, events.drop_first())
    }
}

/// Whether an action is work on the photo at `index`: its report, or a request to the file
/// system made for it.
pub open spec fn attempts(action: ActionView, photos: Seq<PhotoView>, index: int) -> bool {
    let photo = photos[index];
    match action {
        ActionView::Report { index: reported, source, destination, outcome } => reported == index
            && source == photo.path && destination == photo.new_path,
        ActionView::CreateDirectories { dir } => photo.new_path is Some && Some(dir)
            == parent_of(photo.new_path->0),
        ActionView::Rename { from, to } => from == photo.path && Some(to) == photo.new_path,
        ActionView::Copy { from, to } => from == photo.path && Some(to) == photo.new_path,
        _ => false,
    }
}

/// Every step keeps what holds of a run at every moment.
pub proof fn lemma_step_keeps_inv(run: RunView, event: EventView)
    requires
        run.inv(),
    ensures
        step(run, event).0.inv(),
{
    let next = step(run, event).0;
    match run.phase {
        Phase::Planning => {
            assert forall|i: int| 0 <= i < next.photos.len() implies {
                &&& (#[trigger] next.photos[i]).wf()
                &&& next.photos[i].path == next.candidates[i].path
                &&& next.photos[i].original_name == next.candidates[i].original_name
            } by {
                lemma_planning_keeps_photo(
                    run.config.destination,
                    run.photos[i],
                    run.photos[i].original_name,
                );
            }
        },
        _ => {},
    }
}

/// A run keeps what holds of it at every moment from its start through any sequence of
/// events.
pub proof fn lemma_run_keeps_inv(run: RunView, events: Seq<EventView>)
    requires
        run.inv(),
    ensures
        after(run, events).inv(),
    decreases events.len(),
{
    if events.len() > 0 {
        lemma_step_keeps_inv(run, events[0]);
        lemma_run_keeps_inv(step(run, events[0]).0, events.drop_first());
    }
}

/// The phases never go back, and the settings of a run never change.
pub proof fn lemma_no_way_back(run: RunView, event: EventView)
    ensures
        phase_rank(step(run, event).0.phase) >= phase_rank(run.phase),
        step(run, event).0.config == run.config,
{
}

/// Once discovery is over the candidates stay as they are and the photos stay the same in
/// number, and once the photos are planned they stay as they are.
pub proof fn lemma_photos_stay(run: RunView, event: EventView)
    ensures
        phase_rank(run.phase) >= 2 ==> step(run, event).0.candidates == run.candidates && step(
            run,
            event,
        ).0.photos.len() == run.photos.len(),
        phase_rank(run.phase) >= 3 ==> step(run, event).0.photos == run.photos,
{
}

/// The listing of a directory makes every regular file in it a candidate under its own
/// path, after the candidates that were there before, and takes none of them away.
pub proof fn lemma_listing_adds_candidates(run: RunView, entries: Seq<EntryView>)
    requires
        run.inv(),
        run.phase is Discovering,
        run.stage is AwaitingRoot || run.stage is AwaitingListing,
    ensures
        step(run, EventView::Listed(entries)).0.candidates == run.candidates + files_in(entries),
        step(run, EventView::Listed(entries)).0.photos == run.photos,
        step(run, EventView::Listed(entries)).0.fatal is None,
{
}

/// A directory below the source that cannot be listed is left out with a warning, and the
/// warning is the next thing told. Nothing that was discovered is lost, and the
/// directories that wait to be listed still wait: discovery goes on.
pub proof fn lemma_unreadable_directory_is_left_out(run: RunView, reason: Seq<char>)
    requires
        run.inv(),
        run.phase is Discovering,
        run.stage is AwaitingListing,
    ensures
        step(run, EventView::Failed(reason)).1 is Warn,
        step(run, EventView::Failed(reason)).0.phase is Discovering,
        step(run, EventView::Failed(reason)).0.fatal is None,
        step(run, EventView::Failed(reason)).0.candidates == run.candidates,
        step(run, EventView::Failed(reason)).0.photos == run.photos,
        step(run, EventView::Failed(reason)).0.pending == run.pending,
        step(run, EventView::Failed(reason)).0.warnings == run.warnings.push(reason),
{
}

/// Once discovery is over nothing waits to be listed, told or dated: every directory was
/// listed, every warning was told, and every candidate is a photo.
pub proof fn lemma_discovery_leaves_nothing_behind(run: RunView)
    requires
        run.inv(),
        phase_rank(run.phase) >= 2,
    ensures
        run.discovered(),
{
}

/// A step that ends discovery leaves nothing to be listed, told or dated.
pub proof fn lemma_discovery_ends_complete(run: RunView, event: EventView)
    requires
        run.inv(),
        run.phase is Discovering,
        step(run, event).0.phase is Planning,
    ensures
        step(run, event).0.discovered(),
        step(run, event).1 == (ActionView::Announce { found: step(run, event).0.candidates.len() }),
{
}

/// A photo without a capture date is skipped: the run reports it, counts it as skipped, and
/// asks nothing of the file system for it.
pub proof fn lemma_undated_photo_is_skipped(run: RunView, event: EventView)
    requires
        run.inv(),
        run.phase is Relocating,
        run.cursor < run.photos.len(),
        run.photos[run.cursor as int].date is None,
    ensures
        step(run, event).1 == (ActionView::Report {
            index: run.cursor,
            source: run.photos[run.cursor as int].path,
            destination: None,
            outcome: RelocationOutcomeView::Skipped(SkipReason::DateUnresolved),
        }),
        step(run, event).0.summary.skipped == run.summary.skipped + 1,
        step(run, event).0.summary.succeeded == run.summary.succeeded,
        step(run, event).0.summary.failed == run.summary.failed,
{
}

/// A photo without a capture date has none after planning, and so no destination either.
pub proof fn lemma_undated_photo_stays_unplanned(run: RunView, event: EventView, i: int)
    requires
        run.inv(),
        run.phase is Planning,
        0 <= i < run.photos.len(),
        run.photos[i].date is None,
    ensures
        step(run, event).0.photos[i].date is None,
        step(run, event).0.photos[i].new_path is None,
{
}

/// A candidate whose metadata gives no capture date becomes a photo without one: no date is
/// made up for it.
pub proof fn lemma_missing_date_stays_missing(run: RunView, event: EventView)
    requires
        run.inv(),
        run.phase is Discovering,
        run.stage is AwaitingDate,
        !(event matches EventView::Dated(Some(_))),
    ensures
        step(run, event).0.photos == run.photos.push(
            photo_view(run.candidates[run.photos.len() as int], None),
        ),
        step(run, event).0.photos[run.photos.len() as int].date is None,
{
}

/// In a dry run no photo is ever renamed or copied.
pub proof fn lemma_dry_run_transfers_nothing(run: RunView, event: EventView)
    requires
        run.config.dry_run,
    ensures
        !(step(run, event).1 is Rename),
        !(step(run, event).1 is Copy),
{
}

/// In a dry run a photo succeeds as soon as the parent directory of its destination is
/// there.
pub proof fn lemma_dry_run_reports_success(run: RunView, event: EventView)
    requires
        run.inv(),
        run.config.dry_run,
        run.phase is Relocating,
        run.stage is AwaitingDirectory,
        !(event is Failed),
    ensures
        step(run, event).1 == (ActionView::Report {
            index: run.cursor,
            source: run.photos[run.cursor as int].path,
            destination: run.photos[run.cursor as int].new_path,
            outcome: RelocationOutcomeView::Succeeded,
        }),
{
}

/// A photo is renamed only when photos are moved and copied only when they are copied, in
/// both cases from where it was found to its planned destination.
pub proof fn lemma_transfer_follows_mode(run: RunView, event: EventView)
    requires
        run.inv(),
    ensures
        step(run, event).1 matches ActionView::Rename { from, to } ==> !run.config.copy
            && !run.config.dry_run && from == run.photos[run.cursor as int].path && Some(to)
            == run.photos[run.cursor as int].new_path,
        step(run, event).1 matches ActionView::Copy { from, to } ==> run.config.copy
            && !run.config.dry_run && from == run.photos[run.cursor as int].path && Some(to)
            == run.photos[run.cursor as int].new_path,
{
}

/// Outside a dry run, a photo whose parent directory is there is renamed when photos are
/// moved and copied when they are copied; it succeeds when that is done, and fails with the
/// reason given when it could not be done.
pub proof fn lemma_transfer_decides_outcome(run: RunView, event: EventView)
    requires
        run.inv(),
        run.phase is Relocating,
        !run.config.dry_run,
    ensures
        run.stage is AwaitingDirectory && !(event is Failed) ==> step(run, event).1 == (if run.config.copy
        {
            ActionView::Copy {
                from: run.photos[run.cursor as int].path,
                to: run.photos[run.cursor as int].new_path->0,
            }
        } else {
            ActionView::Rename {
                from: run.photos[run.cursor as int].path,
                to: run.photos[run.cursor as int].new_path->0,
            }
        }),
        run.stage is AwaitingTransfer ==> step(run, event).1 == (ActionView::Report {
            index: run.cursor,
            source: run.photos[run.cursor as int].path,
            destination: run.photos[run.cursor as int].new_path,
            outcome: match event {
                EventView::Failed(reason) => RelocationOutcomeView::Failed(
                    PsErrorView { kind: PsErrorKind::RelocationError, msg: reason },
                ),
                _ => RelocationOutcomeView::Succeeded,
            },
        }),
{
}

/// However the work on a photo ends, the run goes on: the report of one photo makes the
/// next photo the current one, and the step after it is work on that photo.
pub proof fn lemma_failure_does_not_stop_the_run(run: RunView, event: EventView, later: EventView)
    requires
        run.inv(),
        step(run, event).1 is Report,
    ensures
        run.phase is Relocating,
        step(run, event).1->Report_index == run.cursor,
        step(run, event).0.phase is Relocating,
        step(run, event).0.cursor == run.cursor + 1,
        step(run, event).0.photos == run.photos,
        run.cursor + 1 < run.photos.len() ==> attempts(
            step(step(run, event).0, later).1,
            run.photos,
            (run.cursor + 1) as int,
        ),
        run.cursor + 1 == run.photos.len() ==> step(step(run, event).0, later).1 == (
        ActionView::Finish { summary: step(run, event).0.summary }),
{
}

/// Every photo that the run is done with is counted once, as succeeded, skipped or failed;
/// and when the run has ended, the photos counted are as many as the candidates that were
/// discovered.
pub proof fn lemma_counts_add_up(run: RunView)
    requires
        run.inv(),
    ensures
        run.summary.succeeded + run.summary.skipped + run.summary.failed == run.cursor,
        run.phase is Summarized ==> run.summary.succeeded + run.summary.skipped
            + run.summary.failed == run.candidates.len(),
{
}

/// When a run has ended, however its steps went, the photos that succeeded, were skipped
/// and failed are as many as the candidates that it discovered.
pub proof fn lemma_summary_counts_every_candidate(config: ConfigView, events: Seq<EventView>)
    ensures
        ({
            let end = after(RunView::initial(config), events);
            end.phase is Summarized ==> end.summary.succeeded + end.summary.skipped
                + end.summary.failed == end.candidates.len()
        }),
{
    lemma_run_keeps_inv(RunView::initial(config), events);
}

/// A run ends early only when its source cannot be listed or unpacked: no failure below
/// the source, and no failure of a single photo, ever ends it.
pub proof fn lemma_only_discovery_aborts(run: RunView, event: EventView)
    requires
        run.inv(),
        run.fatal is None,
    ensures
        step(run, event).1 is Abort <==> (run.stage is AwaitingRoot || run.stage
            is AwaitingArchive) && event is Failed,
        step(run, event).0.fatal is Some <==> (run.stage is AwaitingRoot || run.stage
            is AwaitingArchive) && event is Failed,
{
}

/// The run is done with one more photo exactly when it reports one: every photo is
/// reported once, whatever its outcome.
pub proof fn lemma_one_report_per_photo(run: RunView, event: EventView)
    requires
        run.inv(),
    ensures
        step(run, event).1 is Report ==> step(run, event).0.cursor == run.cursor + 1,
        !(step(run, event).1 is Report) ==> step(run, event).0.cursor == run.cursor,
{
}

} // verus!
