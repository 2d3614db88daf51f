//! What can go wrong on the host side before anything is spawned, and on the
//! reaper side once a command arrives.

use vstd::prelude::*;
use vstd::string::StringExecFns;

verus! {

/// A failure of the host side. Each one aborts a launch before any process
/// exists.
#[derive(Debug, PartialEq, Eq)]
pub enum CellarError {
    /// A pass-through variable was not set in the environment it was resolved
    /// against. Carries the variable's name.
    MissingHostVariable(String),
    /// The generated jail configuration could not be written. Carries the
    /// file's path.
    ConfigWriteFailed(String),
    /// The reaper executable was found neither locally nor on the search path.
    ReaperNotFound,
    /// The sandbox could not be started. Carries the reason.
    ChildSpawnFailed(String),
    /// The command could not be written to the reaper's input. Carries the
    /// reason.
    CommandEncodeFailed(String),
}

/// The mathematical content of a [`CellarError`].
pub enum CellarErrorView {
    MissingHostVariable(Seq<char>),
    ConfigWriteFailed(Seq<char>),
    ReaperNotFound,
    ChildSpawnFailed(Seq<char>),
    CommandEncodeFailed(Seq<char>),
}

impl View for CellarError {
    type V = CellarErrorView;

    open spec fn view(&self) -> CellarErrorView {
        match *self {
            CellarError::MissingHostVariable(name) => CellarErrorView::MissingHostVariable(name@),
            CellarError::ConfigWriteFailed(path) => CellarErrorView::ConfigWriteFailed(path@),
            CellarError::ReaperNotFound => CellarErrorView::ReaperNotFound,
            CellarError::ChildSpawnFailed(reason) => CellarErrorView::ChildSpawnFailed(reason@),
            CellarError::CommandEncodeFailed(reason) => CellarErrorView::CommandEncodeFailed(
                reason@,
            ),
        }
    }
}

impl CellarErrorView {
    /// The sentence that reports this failure.
    pub open spec fn message(self) -> Seq<char> {
        match self {
            CellarErrorView::MissingHostVariable(name) => "environment variable is not set: "@
                + name,
            CellarErrorView::ConfigWriteFailed(path) => "unable to write jail configuration: "@
                + path,
            CellarErrorView::ReaperNotFound => "unable to locate reaper"@,
            CellarErrorView::ChildSpawnFailed(reason) => "unable to start the sandbox: "@ + reason,
            CellarErrorView::CommandEncodeFailed(reason) =>
                "unable to send the command to the reaper: "@ + reason,
        }
    }
}

impl CellarError {
    /// The sentence that reports this failure, naming the variable or path at
    /// fault.
    pub fn message(&self) -> (r: String)
        ensures
            r@ == self@.message(),
    {
        match self {
            CellarError::MissingHostVariable(name) => {
                let mut r = "environment variable is not set: ".to_owned();
                r.append(name.as_str());
                r
            },
            CellarError::ConfigWriteFailed(path) => {
                let mut r = "unable to write jail configuration: ".to_owned();
                r.append(path.as_str());
                r
            },
            CellarError::ReaperNotFound => "unable to locate reaper".to_owned(),
            CellarError::ChildSpawnFailed(reason) => {
                let mut r = "unable to start the sandbox: ".to_owned();
                r.append(reason.as_str());
                r
            },
            CellarError::CommandEncodeFailed(reason) => {
                let mut r = "unable to send the command to the reaper: ".to_owned();
                r.append(reason.as_str());
                r
            },
        }
    }
}

} // verus!
