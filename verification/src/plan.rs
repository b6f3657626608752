//! Deciding what revealing a path takes.
//!
//! A request has two outside steps, and both belong to the caller: finding
//! out whether the path exists, and spawning a program. What lies between
//! them is decided here, and so is the error a failed spawn ends in.

use vstd::prelude::*;
use crate::error::{RevealError, RevealErrorView};
use crate::launch::{Launch, LaunchView};
use crate::parent::{parent_directory, path_parent};
use crate::platform::Platform;

verus! {

/// What opening the folder around a path takes, given the path's parent: the
/// parent is opened, and a path without one cannot be revealed.
pub open spec fn folder_plan(parent: Option<Seq<char>>) -> Result<LaunchView, RevealErrorView> {
    match parent {
        Some(directory) => Ok(LaunchView::open_directory(directory)),
        None => Err(RevealErrorView::NoParentDirectory),
    }
}

/// What revealing `path` on `platform` takes, where `exists` tells whether
/// the path names something on the filesystem. Either one program is to be
/// launched, or the request fails and nothing is.
pub open spec fn reveal_plan(platform: Platform, path: Seq<char>, exists: bool) -> Result<
    LaunchView,
    RevealErrorView,
> {
    if !exists {
        Err(RevealErrorView::NotFound)
    } else {
        match platform {
            Platform::Windows => Ok(LaunchView::select_in_explorer(path)),
            Platform::MacOs => Ok(LaunchView::reveal_in_finder(path)),
            Platform::Linux => folder_plan(path_parent(path)),
        }
    }
}

/// What revealing `path` takes in a program built for the operating system
/// `target_os`. Where that system is none of the three platforms, a path that
/// exists is accepted and nothing is launched for it.
pub open spec fn target_plan(target_os: Seq<char>, path: Seq<char>, exists: bool) -> Result<
    Option<LaunchView>,
    RevealErrorView,
> {
    match Platform::named(target_os) {
        Some(platform) => match reveal_plan(platform, path, exists) {
            Ok(launch) => Ok(Some(launch)),
            Err(error) => Err(error),
        },
        None => if exists {
            Ok(None)
        } else {
            Err(RevealErrorView::NotFound)
        },
    }
}

/// What a request ends in once its launch was handed to the operating
/// system: `spawned` holds the system's error text where nothing was started.
pub open spec fn spawn_result(spawned: Result<(), Seq<char>>) -> Result<(), RevealErrorView> {
    match spawned {
        Ok(done) => Ok(done),
        Err(reason) => Err(RevealErrorView::SpawnFailed(reason)),
    }
}

/// A result as a mathematical value: what it holds, taken by its view.
pub open spec fn outcome_view<T: DeepView, E: DeepView>(outcome: Result<T, E>) -> Result<
    T::V,
    E::V,
> {
    match outcome {
        Ok(value) => Ok(value.deep_view()),
        Err(error) => Err(error.deep_view()),
    }
}

/// Plans the opening of the folder around a path from that path's parent,
/// `None` standing for a path that has no parent.
pub fn open_parent_directory(parent: Option<String>) -> (plan: Result<Launch, RevealError>)
    ensures
        outcome_view(plan) == folder_plan(parent.deep_view()),
{
    match parent {
        Some(directory) => Ok(Launch::open_directory(directory)),
        None => Err(RevealError::NoParentDirectory),
    }
}

/// Plans the reveal of `path` on `platform`. `exists` is the caller's answer
/// to whether the path names a file or directory at the time of the call.
///
/// A path that does not exist is refused before anything else is looked at.
/// Windows and macOS are asked to select the path itself. On Linux the
/// containing folder is opened, with nothing selected in it.
pub fn plan_reveal(platform: Platform, path: &str, exists: bool) -> (plan: Result<
    Launch,
    RevealError,
>)
    ensures
        outcome_view(plan) == reveal_plan(platform, path@, exists),
{
    if !exists {
        return Err(RevealError::NotFound);
    }
    match platform {
        Platform::Windows => Ok(Launch::select_in_explorer(path)),
        Platform::MacOs => Ok(Launch::reveal_in_finder(path)),
        Platform::Linux => open_parent_directory(parent_directory(path)),
    }
}

/// Plans the reveal of `path` in a program built for `target_os`, the name
/// Rust gives the operating system (`std::env::consts::OS`). On the three
/// platforms the plan is that of [`plan_reveal`]. On any other system there
/// is no way to reveal a file: a path that exists is accepted with nothing to
/// launch, and one that does not is refused as everywhere.
pub fn plan_for_target(target_os: &str, path: &str, exists: bool) -> (plan: Result<
    Option<Launch>,
    RevealError,
>)
    ensures
        outcome_view(plan) == target_plan(target_os@, path@, exists),
{
    match Platform::from_target_os(target_os) {
        Some(platform) => match plan_reveal(platform, path, exists) {
            Ok(launch) => Ok(Some(launch)),
            Err(error) => Err(error),
        },
        None => if exists {
            Ok(None)
        } else {
            Err(RevealError::NotFound)
        },
    }
}

/// Ends a request after the caller tried to spawn its launch. A program that
/// was started ends the request well, whatever the program does later; a
/// failure to start it is reported with the operating system's text.
pub fn spawn_outcome(spawned: Result<(), String>) -> (outcome: Result<(), RevealError>)
    ensures
        outcome_view(outcome) == spawn_result(outcome_view(spawned)),
{
    match spawned {
        Ok(done) => Ok(done),
        Err(reason) => Err(RevealError::SpawnFailed(reason)),
    }
}

/// A path that does not exist is never revealed: on every platform the
/// request ends in `NotFound`, so that there is no program to launch.
pub proof fn lemma_missing_path_not_found(platform: Platform, path: Seq<char>)
    ensures
        reveal_plan(platform, path, false) == Err::<LaunchView, RevealErrorView>(
            RevealErrorView::NotFound,
        ),
{
}

/// A path that exists is revealed by one launch of the platform's own
/// program: `explorer` with `/select,` and the path, `open` with `-R` and the
/// path, or `xdg-open` with the path's parent. On Linux this asks that the
/// path has a parent.
pub proof fn lemma_existing_path_one_launch(platform: Platform, path: Seq<char>)
    requires
        platform == Platform::Linux ==> path_parent(path) is Some,
    ensures
        platform == Platform::Windows ==> reveal_plan(platform, path, true) == Ok::<
            LaunchView,
            RevealErrorView,
        >((LaunchView { program: "explorer"@, args: seq!["/select,"@, path] })),
        platform == Platform::MacOs ==> reveal_plan(platform, path, true) == Ok::<
            LaunchView,
            RevealErrorView,
        >((LaunchView { program: "open"@, args: seq!["-R"@, path] })),
        platform == Platform::Linux ==> reveal_plan(platform, path, true) == Ok::<
            LaunchView,
            RevealErrorView,
        >((LaunchView { program: "xdg-open"@, args: seq![path_parent(path).unwrap()] })),
{
}

/// On Linux a path that exists and has no parent, such as the root of the
/// filesystem, ends in `NoParentDirectory`, so that there is no program to
/// launch.
pub proof fn lemma_no_parent_not_revealed(path: Seq<char>)
    requires
        path_parent(path) is None,
    ensures
        reveal_plan(Platform::Linux, path, true) == Err::<LaunchView, RevealErrorView>(
            RevealErrorView::NoParentDirectory,
        ),
{
}

/// Requests keep no state. Whatever two calls of [`plan_reveal`] return for
/// the same platform, the same path and the same answer on its existence,
/// they return the same: where the request can be met, each call asks for a
/// launch of its own and the two launches are equal; where it cannot, both
/// fail with the same error.
pub proof fn lemma_repeated_request_same_plan(
    platform: Platform,
    path: Seq<char>,
    exists: bool,
    first: Result<Launch, RevealError>,
    second: Result<Launch, RevealError>,
)
    requires
        outcome_view(first) == reveal_plan(platform, path, exists),
        outcome_view(second) == reveal_plan(platform, path, exists),
    ensures
        outcome_view(first) == outcome_view(second),
        first is Ok <==> second is Ok,
        reveal_plan(platform, path, exists) is Ok ==> first is Ok && second is Ok
            && first.unwrap()@ == second.unwrap()@,
{
}

} // verus!
