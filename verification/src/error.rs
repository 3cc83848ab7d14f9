//! What can go wrong while photos are sorted.

use vstd::prelude::*;
use vstd::string::*;

verus! {

/// The kinds of failure.
///
/// Only `DiscoveryError` and `ConfigError` end a run. The others concern a single photo:
/// they are reported for it, and the run goes on with the next one.
#[derive(Clone, Copy, Debug, PartialEq, Eq, Structural)]
pub enum PsErrorKind {
    /// Required options are missing.
    ConfigError,
    /// The source does not exist or cannot be read at all.
    DiscoveryError,
    /// The destination has no parent directory.
    PathError,
    /// The parent directory of the destination cannot be created.
    DirectoryCreateError,
    /// The photo cannot be copied or moved to its destination.
    RelocationError,
}

/// A failure, with a message that says what it concerns.
#[derive(Debug, PartialEq, Eq)]
pub struct PsError {
    pub kind: PsErrorKind,
    pub msg: String,
}

/// A failure as plain values.
pub struct PsErrorView {
    pub kind: PsErrorKind,
    pub msg: Seq<char>,
}

impl View for PsError {
    type V = PsErrorView;

    open spec fn view(&self) -> PsErrorView {
        PsErrorView { kind: self.kind, msg: self.msg@ }
    }
}

impl PsError {
    pub fn new(kind: PsErrorKind, msg: String) -> (error: PsError)
        ensures
            error@ == (PsErrorView { kind, msg: msg@ }),
    {
        PsError { kind, msg }
    }

    /// Whether the failure ends the whole run rather than the work on one photo.
    pub open spec fn spec_is_fatal(&self) -> bool {
        self.kind == PsErrorKind::ConfigError || self.kind == PsErrorKind::DiscoveryError
    }

    /// Whether the failure ends the whole run rather than the work on one photo.
    #[verifier::when_used_as_spec(spec_is_fatal)]
    pub fn is_fatal(&self) -> (fatal: bool)
        ensures
            fatal == self.spec_is_fatal(),
    {
        match self.kind {
            PsErrorKind::ConfigError => true,
            PsErrorKind::DiscoveryError => true,
            _ => false,
        }
    }
}

} // verus!
