//! The settings of one run.

use vstd::prelude::*;
use vstd::string::*;
use crate::error::{PsError, PsErrorKind, PsErrorView};
use crate::text::opt_text;

verus! {

/// The settings of one run. They do not change while it lasts.
#[derive(Debug, PartialEq, Eq)]
pub struct Config {
    /// The directory or archive that holds the photos.
    pub source: String,
    /// The root of the dated tree.
    pub destination: String,
    /// Whether photos are copied rather than moved.
    pub copy: bool,
    /// Whether the run only shows what it would do.
    pub dry_run: bool,
    /// The file that log lines go to, if any.
    pub logfile: Option<String>,
}

/// The settings of a run as plain values.
pub struct ConfigView {
    pub source: Seq<char>,
    pub destination: Seq<char>,
    pub copy: bool,
    pub dry_run: bool,
    pub logfile: Option<Seq<char>>,
}

impl View for Config {
    type V = ConfigView;

    open spec fn view(&self) -> ConfigView {
        ConfigView {
            source: self.source@,
            destination: self.destination@,
            copy: self.copy,
            dry_run: self.dry_run,
            logfile: opt_text(self.logfile),
        }
    }
}

/// What a run is told when its source or its destination is missing.
pub open spec fn both_must_be_provided() -> Seq<char> {
    "Both --src and --dest must be provided"@
}

impl Config {
    /// Builds the settings of a run. Both the source and the destination must be given.
    pub fn new(
        source: Option<String>,
        destination: Option<String>,
        copy: bool,
        dry_run: bool,
        logfile: Option<String>,
    ) -> (config: Result<Config, PsError>)
        ensures
            config is Ok <==> source is Some && destination is Some,
            config matches Ok(c) ==> c@ == (ConfigView {
                source: source->0@,
                destination: destination->0@,
                copy,
                dry_run,
                logfile: opt_text(logfile),
            }),
            config matches Err(e) ==> e@ == (PsErrorView {
                kind: PsErrorKind::ConfigError,
                msg: both_must_be_provided(),
            }),
    {
        match (source, destination) {
            (Some(source), Some(destination)) => Ok(
                Config { source, destination, copy, dry_run, logfile },
            ),
            _ => Err(
                PsError::new(
                    PsErrorKind::ConfigError,
                    String::from_str("Both --src and --dest must be provided"),
                ),
            ),
        }
    }

    /// Whether photos leave the source for good.
    pub open spec fn spec_move_file(&self) -> bool {
        !self.copy
    }

    /// Whether photos leave the source for good.
    #[verifier::when_used_as_spec(spec_move_file)]
    pub fn move_file(&self) -> (move_file: bool)
        ensures
            move_file == !self.copy,
    {
        !self.copy
    }
}

} // verus!
