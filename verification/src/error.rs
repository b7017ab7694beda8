//! What can stop the daemon, and how it is reported.

use vstd::prelude::*;
use vstd::std_specs::convert::FromSpecImpl;
use git2::Error as GitFailure;

verus! {

/// `git2::Error`: a failure as libgit2 reports it, which this library only
/// hands on.
#[verifier::external_type_specification]
#[verifier::external_body]
pub struct ExGitFailure(GitFailure);

/// `git2::Error::message` hands out the text that libgit2 recorded for the
/// failure. Nothing is claimed of that text.
pub assume_specification<'a>[ GitFailure::message ](err: &'a GitFailure) -> (text: &'a str)
;

/// The four classes of failure. Every one of them is fatal: the daemon
/// reports it and ends.
#[derive(Clone, Copy, Debug, PartialEq, Eq, Structural)]
pub enum ErrorKind {
    /// Required configuration is missing or contradictory.
    Config,
    /// Clone, discovery, remote lookup or fetch failed.
    Repo,
    /// The command could not be started.
    Process,
    /// A value that the environment should offer is not to be had.
    Environment,
}

/// A failure of the daemon.
#[derive(Debug, PartialEq)]
pub enum Error {
    /// libgit2 reported a failure.
    GitError(GitFailure),
    /// No command was given, or one without arguments.
    MissingCommand,
    /// Neither a clone URL nor the path of a repository was given.
    MissingPath,
    /// The home directory is unknown; holds the reason.
    EnvError(String),
    /// The current directory is unknown; holds the reason.
    IoError(String),
    /// The command did not start; holds the reason.
    ProcessError(String),
}

/// An [`Error`] with its texts as sequences of characters.
pub enum ErrorView {
    GitError(GitFailure),
    MissingCommand,
    MissingPath,
    EnvError(Seq<char>),
    IoError(Seq<char>),
    ProcessError(Seq<char>),
}

impl View for Error {
    type V = ErrorView;

    open spec fn view(&self) -> ErrorView {
        match *self {
            Error::GitError(err) => ErrorView::GitError(err),
            Error::MissingCommand => ErrorView::MissingCommand,
            Error::MissingPath => ErrorView::MissingPath,
            Error::EnvError(reason) => ErrorView::EnvError(reason@),
            Error::IoError(reason) => ErrorView::IoError(reason@),
            Error::ProcessError(reason) => ErrorView::ProcessError(reason@),
        }
    }
}

impl ErrorView {
    /// The class that a failure belongs to.
    pub open spec fn kind(self) -> ErrorKind {
        match self {
            ErrorView::GitError(_) => ErrorKind::Repo,
            ErrorView::MissingCommand => ErrorKind::Config,
            ErrorView::MissingPath => ErrorKind::Config,
            ErrorView::EnvError(_) => ErrorKind::Environment,
            ErrorView::IoError(_) => ErrorKind::Environment,
            ErrorView::ProcessError(_) => ErrorKind::Process,
        }
    }

    /// The line shown to the operator, where `detail` is the text that
    /// libgit2 gave for a `GitError`.
    pub open spec fn message(self, detail: Seq<char>) -> Seq<char> {
        match self {
            ErrorView::GitError(_) => "Git Error: "@ + detail,
            ErrorView::MissingCommand => "Missing command"@,
            ErrorView::MissingPath => "Missing path"@,
            ErrorView::EnvError(reason) => "Missing env var: "@ + reason,
            ErrorView::IoError(reason) => "io error occured: "@ + reason,
            ErrorView::ProcessError(reason) => "failed to spawn cmd: "@ + reason,
        }
    }
}

impl Error {
    /// The class of this failure.
    pub fn kind(&self) -> (kind: ErrorKind)
        ensures
            kind == self@.kind(),
    {
        match self {
            Error::GitError(_) => ErrorKind::Repo,
            Error::MissingCommand => ErrorKind::Config,
            Error::MissingPath => ErrorKind::Config,
            Error::EnvError(_) => ErrorKind::Environment,
            Error::IoError(_) => ErrorKind::Environment,
            Error::ProcessError(_) => ErrorKind::Process,
        }
    }

    /// The line shown to the operator, where `detail` is the text that
    /// libgit2 gave for a `GitError`.
    pub fn message_with(&self, detail: &str) -> (text: String)
        ensures
            text@ == self@.message(detail@),
    {
        match self {
            Error::GitError(_) => {
                let mut text = String::from_str("Git Error: ");
                text.append(detail);
                text
            },
            Error::MissingCommand => String::from_str("Missing command"),
            Error::MissingPath => String::from_str("Missing path"),
            Error::EnvError(reason) => {
                let mut text = String::from_str("Missing env var: ");
                text.append(reason.as_str());
                text
            },
            Error::IoError(reason) => {
                let mut text = String::from_str("io error occured: ");
                text.append(reason.as_str());
                text
            },
            Error::ProcessError(reason) => {
                let mut text = String::from_str("failed to spawn cmd: ");
                text.append(reason.as_str());
                text
            },
        }
    }

    /// The line shown to the operator. For a `GitError` it is the fixed
    /// prefix followed by libgit2's own text, whatever that is; for every
    /// other failure the whole line is determined.
    pub fn message(&self) -> (text: String)
        ensures
            exists|detail: Seq<char>| text@ == #[trigger] self@.message(detail),
    {
        match self {
            Error::GitError(err) => self.message_with(err.message()),
            _ => self.message_with(""),
        }
    }
}

impl From<GitFailure> for Error {
    fn from(err: GitFailure) -> (error: Error) {
        Error::GitError(err)
    }
}

impl FromSpecImpl<GitFailure> for Error {
    open spec fn obeys_from_spec() -> bool {
        true
    }

    open spec fn from_spec(err: GitFailure) -> Error {
        Error::GitError(err)
    }
}

} // verus!
