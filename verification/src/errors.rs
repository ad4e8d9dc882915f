use crate::rebase::RebaseFailure;
use vstd::prelude::*;

verus! {

/// Why the local commit could not be made.
#[derive(Clone, Copy, Debug, PartialEq, Eq, Structural)]
pub enum CommitError {
    /// A changed path could not be staged.
    Stage,
    /// The branch has no commit to build on, though the repository has
    /// history.
    NoParent,
    /// The commit object could not be written.
    Create,
}

/// Why the remote branch could not be fetched.
#[derive(Clone, Copy, Debug, PartialEq, Eq, Structural)]
pub enum FetchError {
    Network,
    /// No credential was accepted.
    Auth,
}

/// Why the local branch could not be pushed.
#[derive(Clone, Copy, Debug, PartialEq, Eq, Structural)]
pub enum PushError {
    Network,
    /// No credential was accepted.
    Auth,
    /// The remote branch moved on after it was fetched.
    NonFastForward,
}

/// Why a synchronization stopped, by the phase that failed.
#[derive(Clone, Copy, Debug, PartialEq, Eq, Structural)]
pub enum SyncError {
    /// The directory holds no repository.
    Open,
    /// The changes of the working tree could not be listed.
    Status,
    Commit(CommitError),
    Fetch(FetchError),
    Rebase(RebaseFailure),
    Push(PushError),
}

/// What a synchronization that succeeded has done.
#[derive(Clone, Copy, Debug, PartialEq, Eq, Structural)]
pub enum SyncReport {
    /// Nothing was committed and nothing was replayed.
    UpToDate,
    /// A commit was made or local commits were replayed.
    Completed,
}

/// The name of the phase in which `error` arose.
pub open spec fn phase_name(error: SyncError) -> Seq<char> {
    match error {
        SyncError::Open => "open"@,
        SyncError::Status => "status"@,
        SyncError::Commit(_) => "commit"@,
        SyncError::Fetch(_) => "fetch"@,
        SyncError::Rebase(_) => "rebase"@,
        SyncError::Push(_) => "push"@,
    }
}

/// What went wrong within that phase.
pub open spec fn cause_name(error: SyncError) -> Seq<char> {
    match error {
        SyncError::Open => "not a repository"@,
        SyncError::Status => "cannot list the changes of the working tree"@,
        SyncError::Commit(CommitError::Stage) => "cannot stage the changes"@,
        SyncError::Commit(CommitError::NoParent) => "the branch has no commit to build on"@,
        SyncError::Commit(CommitError::Create) => "cannot write the commit"@,
        SyncError::Fetch(FetchError::Network) => "network failure"@,
        SyncError::Fetch(FetchError::Auth) => "no credential was accepted"@,
        SyncError::Rebase(RebaseFailure::Conflict) => "a local commit does not apply cleanly"@,
        SyncError::Rebase(RebaseFailure::Error) => "the rebase failed"@,
        SyncError::Push(PushError::Network) => "network failure"@,
        SyncError::Push(PushError::Auth) => "no credential was accepted"@,
        SyncError::Push(PushError::NonFastForward) => "the remote branch has moved on"@,
    }
}

impl SyncError {
    /// The name of the phase that failed.
    pub fn phase(&self) -> (name: &'static str)
        ensures
            name@ == phase_name(*self),
    {
        match self {
            SyncError::Open => "open",
            SyncError::Status => "status",
            SyncError::Commit(_) => "commit",
            SyncError::Fetch(_) => "fetch",
            SyncError::Rebase(_) => "rebase",
            SyncError::Push(_) => "push",
        }
    }

    /// What went wrong within that phase.
    pub fn cause(&self) -> (text: &'static str)
        ensures
            text@ == cause_name(*self),
    {
        match self {
            SyncError::Open => "not a repository",
            SyncError::Status => "cannot list the changes of the working tree",
            SyncError::Commit(CommitError::Stage) => "cannot stage the changes",
            SyncError::Commit(CommitError::NoParent) => "the branch has no commit to build on",
            SyncError::Commit(CommitError::Create) => "cannot write the commit",
            SyncError::Fetch(FetchError::Network) => "network failure",
            SyncError::Fetch(FetchError::Auth) => "no credential was accepted",
            SyncError::Rebase(RebaseFailure::Conflict) => "a local commit does not apply cleanly",
            SyncError::Rebase(RebaseFailure::Error) => "the rebase failed",
            SyncError::Push(PushError::Network) => "network failure",
            SyncError::Push(PushError::Auth) => "no credential was accepted",
            SyncError::Push(PushError::NonFastForward) => "the remote branch has moved on",
        }
    }

    /// The failure in words: the phase, a colon and the cause.
    pub fn describe(&self) -> (text: String)
        ensures
            text@ == phase_name(*self) + ": "@ + cause_name(*self),
    {
        let mut text = String::from_str(self.phase());
        text.append(": ");
        text.append(self.cause());
        text
    }
}

} // verus!
