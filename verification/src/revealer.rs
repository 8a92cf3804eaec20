//! The decisions of revealing a path, one platform at a time.
//!
//! Revealing a path takes up to three moves. [`PathRevealer::begin`] says
//! what to do first: start a program, or ask the file system what the path
//! is. [`PathRevealer::resume`] turns the file system's answer into the
//! program to start. [`conclude`] turns the outcome of starting it into the
//! result of the whole operation. The host makes the moves; every decision
//! between them is taken here.

use vstd::prelude::*;
use vstd::pervasive::unreached;
use crate::error::RevealError;
use crate::launch::{Launch, LaunchView};
use crate::path::{
    contains_comma, has_comma, lemma_comma_path_has_parent, parent_directory, parent_of,
};

verus! {

/// The platforms whose file managers are known.
#[derive(Clone, Copy, Debug, PartialEq, Eq)]
pub enum Platform {
    Windows,
    MacOs,
    Linux,
}

/// What the file system said about a path.
#[derive(Clone, Copy, Debug, PartialEq, Eq)]
pub enum Lookup {
    /// The path is a directory.
    Directory,
    /// The path exists and is not a directory.
    File,
    /// Nothing exists at the path.
    Missing,
    /// The file system refused to say.
    Inaccessible,
}

/// What the host does next.
#[derive(Clone, Debug, PartialEq, Eq)]
pub enum Step {
    /// Ask the file system what the path is, then call
    /// [`PathRevealer::resume`] with the answer.
    Inspect,
    /// Start this program.
    Launch(Launch),
}

/// What a [`Step`] holds, as plain text.
pub enum StepView {
    Inspect,
    Launch(LaunchView),
}

impl View for Step {
    type V = StepView;

    open spec fn view(&self) -> StepView {
        match self {
            Step::Inspect => StepView::Inspect,
            Step::Launch(launch) => StepView::Launch(launch@),
        }
    }
}

/// Whether the file system must be asked before `path` can be revealed.
/// Only Linux asks, and only for a path with a comma in it: the bus
/// interface of its file managers cannot carry a comma inside an item.
pub open spec fn needs_lookup(platform: Platform, path: Seq<char>) -> bool {
    platform is Linux && has_comma(path)
}

/// The program that reveals `path` itself on `platform`.
pub open spec fn direct_launch(platform: Platform, path: Seq<char>) -> LaunchView {
    match platform {
        Platform::Windows => LaunchView::explorer_select(path),
        Platform::MacOs => LaunchView::finder_reveal(path),
        Platform::Linux => LaunchView::show_items(path),
    }
}

/// The first move for `path` on `platform`.
pub open spec fn first_step(platform: Platform, path: Seq<char>) -> StepView {
    if needs_lookup(platform, path) {
        StepView::Inspect
    } else {
        StepView::Launch(direct_launch(platform, path))
    }
}

/// The directory to open in place of revealing `path`: the path itself if
/// it is a directory, its parent otherwise. A path without a parent stands
/// for itself.
pub open spec fn directory_to_open(path: Seq<char>, is_directory: bool) -> Seq<char> {
    if is_directory {
        path
    } else {
        match parent_of(path) {
            Some(parent) => parent,
            None => path,
        }
    }
}

/// The program to start for `path` on `platform`, once the file system has
/// answered `lookup`. Where no lookup is needed the answer plays no part.
pub open spec fn plan(platform: Platform, path: Seq<char>, lookup: Lookup) -> Result<
    LaunchView,
    RevealError,
> {
    if !needs_lookup(platform, path) {
        Ok(direct_launch(platform, path))
    } else {
        match lookup {
            Lookup::Directory => Ok(LaunchView::open_directory(directory_to_open(path, true))),
            Lookup::File => Ok(LaunchView::open_directory(directory_to_open(path, false))),
            Lookup::Missing => Err(RevealError::PathNotFound),
            Lookup::Inaccessible => Err(RevealError::PathInaccessible),
        }
    }
}

/// The result of the whole operation, given whether the program started.
pub open spec fn conclusion(started: bool) -> Result<(), RevealError> {
    if started {
        Ok(())
    } else {
        Err(RevealError::ProcessSpawnFailure)
    }
}

/// A planned launch or its refusal, as plain text.
pub open spec fn outcome_view(outcome: Result<Launch, RevealError>) -> Result<
    LaunchView,
    RevealError,
> {
    match outcome {
        Ok(launch) => Ok(launch@),
        Err(error) => Err(error),
    }
}

/// Reveals paths on one platform.
#[derive(Clone, Copy, Debug, PartialEq, Eq)]
pub struct PathRevealer {
    /// The platform whose file manager is addressed.
    pub platform: Platform,
}

impl PathRevealer {
    /// A revealer for `platform`.
    pub fn new(platform: Platform) -> (revealer: PathRevealer)
        ensures
            revealer.platform == platform,
    {
        PathRevealer { platform }
    }

    /// The first move for `path`.
    ///
    /// On Windows and macOS the file manager is started on the path as it
    /// is. On Linux a path without a comma goes to the file manager over
    /// the session bus, unchanged, and a path with a comma has the host ask
    /// the file system.
    pub fn begin(&self, path: &str) -> (step: Step)
        ensures
            step@ == first_step(self.platform, path@),
            step is Inspect <==> self.platform is Linux && has_comma(path@),
            self.platform is Windows ==> step@ == StepView::Launch(
                LaunchView::explorer_select(path@),
            ),
            self.platform is MacOs ==> step@ == StepView::Launch(LaunchView::finder_reveal(path@)),
            self.platform is Linux && !has_comma(path@) ==> step@ == StepView::Launch(
                LaunchView::show_items(path@),
            ),
    {
        match self.platform {
            Platform::Windows => Step::Launch(Launch::explorer_select(path)),
            Platform::MacOs => Step::Launch(Launch::finder_reveal(path)),
            Platform::Linux => {
                if contains_comma(path) {
                    Step::Inspect
                } else {
                    Step::Launch(Launch::show_items(path))
                }
            },
        }
    }

    /// The program to start for `path`, once the file system has answered.
    ///
    /// Where [`PathRevealer::begin`] asked for no lookup, this is the
    /// program that `begin` gave, whatever `lookup` says. Where it asked,
    /// a directory is opened as it is, anything else has its parent
    /// directory opened, which is never the path itself, and a path that
    /// is missing or out of reach is an error.
    pub fn resume(&self, path: &str, lookup: Lookup) -> (outcome: Result<Launch, RevealError>)
        ensures
            outcome_view(outcome) == plan(self.platform, path@, lookup),
            outcome is Err <==> needs_lookup(self.platform, path@) && (lookup is Missing
                || lookup is Inaccessible),
            needs_lookup(self.platform, path@) && lookup is Missing ==> outcome == Err::<
                Launch,
                RevealError,
            >(RevealError::PathNotFound),
            needs_lookup(self.platform, path@) && lookup is Inaccessible ==> outcome == Err::<
                Launch,
                RevealError,
            >(RevealError::PathInaccessible),
            needs_lookup(self.platform, path@) && lookup is Directory ==> outcome is Ok
                && outcome.unwrap()@ == LaunchView::open_directory(path@),
            needs_lookup(self.platform, path@) && lookup is File ==> outcome is Ok
                && parent_of(path@) is Some && outcome.unwrap()@ == LaunchView::open_directory(
                parent_of(path@).unwrap(),
            ) && parent_of(path@).unwrap() != path@,
    {
        match self.begin(path) {
            Step::Launch(launch) => Ok(launch),
            Step::Inspect => {
                match lookup {
                    Lookup::Directory => Ok(Launch::open_directory(path)),
                    Lookup::File => {
                        proof {
                            lemma_comma_path_has_parent(path@);
                        }
                        match parent_directory(path) {
                            Some(parent) => Ok(Launch::open_directory(parent.as_str())),
                            None => unreached(),
                        }
                    },
                    Lookup::Missing => Err(RevealError::PathNotFound),
                    Lookup::Inaccessible => Err(RevealError::PathInaccessible),
                }
            },
        }
    }
}

/// The result of the whole operation, given whether the program started.
pub fn conclude(started: bool) -> (result: Result<(), RevealError>)
    ensures
        result == conclusion(started),
        result is Ok <==> started,
{
    if started {
        Ok(())
    } else {
        Err(RevealError::ProcessSpawnFailure)
    }
}

} // verus!
