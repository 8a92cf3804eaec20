//! What holds of revealing, for every path.
//!
//! Each statement here is about the decisions as a whole: the first move
//! and the program that is started in the end.

use vstd::prelude::*;
use crate::error::RevealError;
use crate::launch::{file_uri, show_items_argument, LaunchView};
use crate::path::{
    component_start, has_comma, last_name_end, lemma_comma_path_has_parent,
    lemma_parent_drops_last_name, parent_len, parent_of,
};
use crate::revealer::{first_step, plan, Lookup, Platform, StepView};

verus! {

/// On Linux a path without a comma is shown by the file manager itself.
/// No lookup is made and none is consulted. The bus call is detached, it
/// names the path, unchanged, behind `file://`, and it passes an empty
/// startup id.
pub proof fn law_plain_path_is_shown_unchanged(path: Seq<char>, lookup: Lookup)
    requires
        !has_comma(path),
    ensures
        first_step(Platform::Linux, path) == StepView::Launch(LaunchView::show_items(path)),
        plan(Platform::Linux, path, lookup) == Ok::<LaunchView, RevealError>(
            LaunchView::show_items(path),
        ),
        LaunchView::show_items(path).detached,
        LaunchView::show_items(path).args.len() == 7,
        LaunchView::show_items(path).args[5] == show_items_argument(path),
        LaunchView::show_items(path).args[6] == "string:\"\""@,
        show_items_argument(path) == "array:string:\""@ + file_uri(path) + "\""@,
        file_uri(path).len() == 7 + path.len(),
        file_uri(path).take(7) == "file://"@,
        file_uri(path).skip(7) == path,
{
    reveal_strlit("file://");
    assert(file_uri(path).take(7) =~= "file://"@);
    assert(file_uri(path).skip(7) =~= path);
}

/// On Linux a path with a comma that is a directory is opened as it is:
/// the file system is asked first, and the opener then gets the path
/// unchanged as its only argument.
pub proof fn law_comma_directory_is_opened_unchanged(path: Seq<char>)
    requires
        has_comma(path),
    ensures
        first_step(Platform::Linux, path) == StepView::Inspect,
        plan(Platform::Linux, path, Lookup::Directory) == Ok::<LaunchView, RevealError>(
            LaunchView::open_directory(path),
        ),
        LaunchView::open_directory(path).args == seq![path],
        !LaunchView::open_directory(path).detached,
{
}

/// On Linux a path with a comma that is not a directory has its parent
/// opened: the file system is asked first, and the opener then gets the
/// path without its last named component. That is a proper prefix of the
/// path, and never the path itself.
pub proof fn law_comma_file_has_its_parent_opened(path: Seq<char>)
    requires
        has_comma(path),
    ensures
        first_step(Platform::Linux, path) == StepView::Inspect,
        parent_of(path) is Some,
        plan(Platform::Linux, path, Lookup::File) == Ok::<LaunchView, RevealError>(
            LaunchView::open_directory(parent_of(path).unwrap()),
        ),
        LaunchView::open_directory(parent_of(path).unwrap()).args == seq![parent_of(path).unwrap()],
        parent_of(path).unwrap() != path,
        parent_of(path).unwrap().len() < path.len(),
        parent_of(path).unwrap() == path.subrange(0, parent_of(path).unwrap().len() as int),
        last_name_end(path, path.len() as int) > 0,
        parent_of(path).unwrap().len() <= component_start(
            path,
            last_name_end(path, path.len() as int),
        ),
{
    lemma_comma_path_has_parent(path);
    lemma_parent_drops_last_name(path);
    assert(parent_len(path) is Some);
}

/// A path that is missing or out of reach is refused with an error where
/// the file system was asked, and on every platform and path each answer
/// of the file system has a planned outcome: a program to start or one of
/// these two errors.
pub proof fn law_missing_path_is_refused(platform: Platform, path: Seq<char>, lookup: Lookup)
    ensures
        first_step(platform, path) == StepView::Inspect ==> {
            &&& plan(platform, path, Lookup::Missing) == Err::<LaunchView, RevealError>(
                RevealError::PathNotFound,
            )
            &&& plan(platform, path, Lookup::Inaccessible) == Err::<LaunchView, RevealError>(
                RevealError::PathInaccessible,
            )
            &&& plan(platform, path, Lookup::Directory) is Ok
            &&& plan(platform, path, Lookup::File) is Ok
        },
        first_step(platform, path) matches StepView::Launch(launch) ==> plan(
            platform,
            path,
            lookup,
        ) == Ok::<LaunchView, RevealError>(launch),
{
}

/// Planning never fails on encoding: a path is text, a parent is cut from
/// it between two characters, and so every argument is text again.
pub proof fn law_planning_never_fails_on_encoding(
    platform: Platform,
    path: Seq<char>,
    lookup: Lookup,
)
    ensures
        plan(platform, path, lookup) != Err::<LaunchView, RevealError>(
            RevealError::EncodingFailure,
        ),
        plan(platform, path, lookup) != Err::<LaunchView, RevealError>(
            RevealError::ProcessSpawnFailure,
        ),
{
}

} // verus!
